//! The default JSON decoding of response bodies.

use crate::error::BodyError;
use crate::error::BodyErrorView;
use crate::wire::Response;
use vstd::prelude::*;

verus! {

/// Declares the JSON codec's value type, so that endpoints can decode
/// into it. The type is opaque here.
#[verifier::external_type_specification]
#[verifier::external_body]
pub struct ExSerdeJsonValue(serde_json::Value);

/// Whether the JSON codec parses these bytes: a pure function of the
/// bytes.
pub uninterp spec fn spec_json_ok(bytes: Seq<u8>) -> bool;

/// Relies on `serde_json::from_slice::<Value>`: parses the bytes as a
/// JSON value; success depends on the bytes alone.
#[verifier::external_body]
fn json_value_from_slice(bytes: &[u8]) -> (r: Result<serde_json::Value, serde_json::Error>)
    ensures
        r is Ok <==> spec_json_ok(bytes@),
{
    serde_json::from_slice(bytes)
}

/// Decodes a response body as a JSON value — the default behaviour of
/// [`crate::Endpoint::deserialize`] for JSON endpoints: succeeds
/// exactly when the body parses, and fails with the deserialize kind
/// on malformed input.
pub fn deserialize_json(response: &Response) -> (r: Result<serde_json::Value, BodyError>)
    ensures
        r is Ok <==> spec_json_ok(response@.body),
        r matches Err(e) ==> e@ == BodyErrorView::Deserialize,
{
    match json_value_from_slice(response.body.as_slice()) {
        Ok(v) => Ok(v),
        Err(_) => Err(BodyError::Deserialize),
    }
}

} // verus!
