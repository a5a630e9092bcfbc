//! Errors that can occur when building or decoding a body.

use vstd::prelude::*;

verus! {

/// Declares the JSON codec's error type, so that values of it can be
/// carried inside [`BodyError::SerdeJson`]. The type is opaque here.
#[verifier::external_type_specification]
#[verifier::external_body]
pub struct ExSerdeJsonError(serde_json::Error);

/// Errors that can occur when building or decoding a body.
#[derive(Debug)]
pub enum BodyError {
    /// There was insufficient data to build the body.
    InsufficientData,
    /// There was an error building the body.
    Build,
    /// The body could not be decoded into the target type.
    Deserialize,
    /// The JSON codec failed.
    SerdeJson(serde_json::Error),
    /// Any other error, described as text.
    Other(String),
}

/// The mathematical value of a [`BodyError`]: the kind of failure.
///
/// A JSON codec error is opaque, so its view carries no payload.
pub enum BodyErrorView {
    InsufficientData,
    Build,
    Deserialize,
    SerdeJson,
    Other(Seq<char>),
}

impl View for BodyError {
    type V = BodyErrorView;

    open spec fn view(&self) -> BodyErrorView {
        match self {
            BodyError::InsufficientData => BodyErrorView::InsufficientData,
            BodyError::Build => BodyErrorView::Build,
            BodyError::Deserialize => BodyErrorView::Deserialize,
            BodyError::SerdeJson(_) => BodyErrorView::SerdeJson,
            BodyError::Other(m) => BodyErrorView::Other(m@),
        }
    }
}

} // verus!
