//! Errors that can occur inside an HTTP transport backend.

use vstd::prelude::*;

verus! {

/// Errors that can occur inside an HTTP transport backend.
///
/// A backend (a native blocking client, a native asynchronous client, a
/// browser-hosted client) reports its I/O and protocol failures here,
/// described as text.
#[derive(Clone, PartialEq, Eq, Debug)]
pub enum HttpClientError {
    /// A failure of the backend itself: connection, protocol, transfer.
    Backend(String),
    /// Any other error from an unknown client, described as text.
    Other(String),
}

/// The mathematical value of an [`HttpClientError`].
pub enum HttpClientErrorView {
    Backend(Seq<char>),
    Other(Seq<char>),
}

impl View for HttpClientError {
    type V = HttpClientErrorView;

    open spec fn view(&self) -> HttpClientErrorView {
        match self {
            HttpClientError::Backend(m) => HttpClientErrorView::Backend(m@),
            HttpClientError::Other(m) => HttpClientErrorView::Other(m@),
        }
    }
}

} // verus!
