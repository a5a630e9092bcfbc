//! Errors that can occur when building or reading headers.

use vstd::prelude::*;

verus! {

/// Errors that can occur when building or reading headers.
#[derive(Clone, PartialEq, Eq, Debug)]
pub enum HeaderError {
    /// A header name or value holds characters a header may not hold;
    /// carries the offending text.
    Parse(String),
    /// An expected header was absent; carries its name.
    MissingHeader(String),
    /// A header value could not be converted to text; carries its name.
    ToStr(String),
    /// Any other error, described as text.
    Other(String),
}

/// The mathematical value of a [`HeaderError`].
pub enum HeaderErrorView {
    Parse(Seq<char>),
    MissingHeader(Seq<char>),
    ToStr(Seq<char>),
    Other(Seq<char>),
}

impl View for HeaderError {
    type V = HeaderErrorView;

    open spec fn view(&self) -> HeaderErrorView {
        match self {
            HeaderError::Parse(t) => HeaderErrorView::Parse(t@),
            HeaderError::MissingHeader(n) => HeaderErrorView::MissingHeader(n@),
            HeaderError::ToStr(n) => HeaderErrorView::ToStr(n@),
            HeaderError::Other(m) => HeaderErrorView::Other(m@),
        }
    }
}

} // verus!
