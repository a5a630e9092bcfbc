//! Building blocks for typed REST API endpoints.
//!
//! An endpoint is described declaratively (method, path, headers, query
//! parameters, body, response decoding) by implementing [`Endpoint`];
//! a transport backend is plugged in through the [`client`] traits; the
//! [`query`] pipeline turns the two into a typed result or a structured
//! [`error::APIError`].

pub mod client;
pub mod combinators;
pub mod endpoint;
pub mod error;
pub mod query;
pub mod query_params;
pub mod url_encoding;
pub mod wire;

pub use client::Client;
pub use client::RestClient;
pub use client::WasmClient;
pub use combinators::json::deserialize_json;
pub use combinators::prost::Message;
pub use combinators::prost::Prost;
pub use combinators::raw::Raw;
pub use endpoint::Endpoint;
pub use error::APIClientError;
pub use error::APIError;
pub use error::APIErrorKind;
pub use error::BodyError;
pub use error::HeaderError;
pub use error::HttpClientError;
pub use query::Query;
pub use query_params::QueryParamPair;
pub use query_params::QueryParamPairs;
pub use wire::HeaderEntry;
pub use wire::HeaderMap;
pub use wire::Method;
pub use wire::Request;
pub use wire::RequestBuilder;
pub use wire::Response;
