[package]
name = "api_builder"
version = "0.1.0"
edition = "2021"
publish = false

[dependencies]
serde = { version = "*", features = ["derive"] }
serde_json = "*"
url = "*"
prost = "*"
reqwest = { version = "*", default-features = false, features = ["blocking"] }
