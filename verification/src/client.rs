//! The transport capability: what a backend must offer.
//!
//! A client resolves a relative path to an absolute URL and executes a
//! raw request for a raw response. Backends are interchangeable: the
//! pipeline never special-cases one. The blocking transport implements
//! [`Client`]; asynchronous and browser-hosted transports are adapters
//! outside the library, built over [`RestClient`] and over the same
//! verified request-building and finalizing steps.

use crate::error::APIClientError;
use crate::error::APIError;
use crate::error::APIErrorKindView;
use crate::wire::Request;
use crate::wire::RequestView;
use crate::wire::Response;
use vstd::prelude::*;

verus! {

/// True when a resolved URL (or the failure to resolve one) matches
/// what the client's resolution function gives for the path.
pub open spec fn spec_resolve_match<E: APIClientError>(
    r: Result<String, APIError<E>>,
    d: Result<Seq<char>, APIErrorKindView<E>>,
) -> bool {
    match (r, d) {
        (Result::Ok(u), Result::Ok(s)) => u@ == s,
        (Result::Err(e), Result::Err(v)) => e@ == v,
        _ => false,
    }
}

/// A client which can address an instance via REST: it knows how to
/// join its configured base URL with an endpoint's path.
pub trait RestClient {
    /// The errors which may occur for this client.
    type Error: APIClientError;

    /// What resolution returns for a path: a pure function of the
    /// client and the path. The default leaves it unspecified; a
    /// verified implementation provides its own.
    open spec fn resolve_spec(&self, path: Seq<char>) -> Result<Seq<char>, APIErrorKindView<Self::Error>> {
        vstd::pervasive::arbitrary()
    }

    /// Gets the absolute URL for an endpoint of the client's target
    /// instance.
    fn rest_endpoint(&self, path: &str) -> (r: Result<String, APIError<Self::Error>>)
        ensures
            spec_resolve_match(r, self.resolve_spec(path@)),
    ;
}

/// A client which can execute a request, blocking until the response
/// arrives.
pub trait Client: RestClient {
    /// Whether `r` is a response or failure this client's transport may
    /// produce for the request. A network transport promises nothing;
    /// the default leaves it unspecified, and a verified implementation
    /// provides its own.
    open spec fn rest_rel(&self, request: RequestView, r: Result<Response, APIError<Self::Error>>) -> bool {
        vstd::pervasive::arbitrary()
    }

    /// Sends a REST query: one request on the wire, and whatever
    /// response or failure the transport produced for it.
    fn rest(&self, request: Request) -> (r: Result<Response, APIError<Self::Error>>)
        ensures
            self.rest_rel(request@, r),
    ;
}

/// A marker for browser-hosted clients. An asynchronous transport
/// adapter over the browser's fetch machinery would be implemented
/// outside the library, on top of this capability; no such adapter
/// ships in this tree, since the crates it needs build only for
/// browser targets.
pub trait WasmClient: RestClient {

}

} // verus!
