//! Finalization strategies: response-handling policies layered over an
//! endpoint by delegation.
//!
//! Every strategy shares the request and send steps; only the finalize
//! step differs. The default, deserializing strategy is the blanket
//! [`crate::query::Query`] implementation every [`crate::Endpoint`]
//! gets; [`raw::Raw`] skips decoding; [`prost::Prost`] decodes the body
//! as a binary message.

pub mod json;
pub mod prost;
pub mod raw;
