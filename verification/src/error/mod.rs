//! The layered error taxonomy.
//!
//! The leaf kinds — body ([`BodyError`]), header ([`HeaderError`]) and
//! transport backend ([`HttpClientError`]) — all lift into the one
//! top-level kind [`APIErrorKind`], so callers have a single error entry
//! point regardless of where a failure arose. [`APIError`] boxes the
//! kind, keeping the success path's result type small.

pub mod body;
pub mod header;
pub mod http_client;

use vstd::prelude::*;
use vstd::std_specs::convert::IntoSpec;

pub use body::BodyError;
pub use body::BodyErrorView;
pub use header::HeaderError;
pub use header::HeaderErrorView;
pub use http_client::HttpClientError;
pub use http_client::HttpClientErrorView;

use crate::wire::Response;
use crate::wire::ResponseView;

verus! {

/// The errors a client type may report through [`APIErrorKind::Client`].
pub trait APIClientError {
    /// The text [`Self::message`] returns. The default leaves it
    /// unspecified; a verified implementation provides its own.
    open spec fn spec_message(&self) -> Seq<char> {
        vstd::pervasive::arbitrary()
    }

    /// A human-readable description of the error.
    fn message(&self) -> (r: String)
        ensures
            r@ == self.spec_message(),
    ;
}

/// Errors that can occur when using API endpoints.
#[derive(Debug)]
pub enum APIErrorKind<E: APIClientError> {
    /// The client encountered an error.
    Client(E),
    /// Request construction violated protocol rules.
    MalformedRequest(String),
    /// An HTTP transport backend failed.
    HttpClient(HttpClientError),
    /// There was an error with the body.
    Body(BodyError),
    /// There was an error with the headers.
    Header(HeaderError),
    /// A header entry lacks a name.
    MissingHeaderName,
    /// The server returned an unsuccessful response; carries it whole.
    Response(Response),
    /// URL parsing failed; carries the offending text.
    Url(String),
    /// There was an unknown error, described as text.
    Other(String),
}

/// The mathematical value of an [`APIErrorKind`] (and of an [`APIError`]).
pub enum APIErrorKindView<E> {
    Client(E),
    MalformedRequest(Seq<char>),
    HttpClient(HttpClientErrorView),
    Body(BodyErrorView),
    Header(HeaderErrorView),
    MissingHeaderName,
    Response(ResponseView),
    Url(Seq<char>),
    Other(Seq<char>),
}

impl<E: APIClientError> View for APIErrorKind<E> {
    type V = APIErrorKindView<E>;

    open spec fn view(&self) -> APIErrorKindView<E> {
        match self {
            APIErrorKind::Client(e) => APIErrorKindView::Client(*e),
            APIErrorKind::MalformedRequest(m) => APIErrorKindView::MalformedRequest(m@),
            APIErrorKind::HttpClient(h) => APIErrorKindView::HttpClient(h@),
            APIErrorKind::Body(b) => APIErrorKindView::Body(b@),
            APIErrorKind::Header(h) => APIErrorKindView::Header(h@),
            APIErrorKind::MissingHeaderName => APIErrorKindView::MissingHeaderName,
            APIErrorKind::Response(r) => APIErrorKindView::Response(r@),
            APIErrorKind::Url(u) => APIErrorKindView::Url(u@),
            APIErrorKind::Other(m) => APIErrorKindView::Other(m@),
        }
    }
}

impl<E: APIClientError> APIErrorKind<E> {
    /// Converts an `APIErrorKind<T>` into an `APIErrorKind<E>`, converting
    /// the client error and keeping every other kind unchanged.
    pub fn from_api_error<T: APIClientError + Into<E>>(err: APIErrorKind<T>) -> (r: APIErrorKind<
        E,
    >)
        ensures
            err matches APIErrorKind::Client(c) ==> r is Client,
            err matches APIErrorKind::Client(c) ==> (<T as IntoSpec<E>>::obeys_into_spec() ==> r
                == APIErrorKind::<E>::Client(c.into_spec())),
            err matches APIErrorKind::MalformedRequest(m) ==> r == APIErrorKind::<
                E,
            >::MalformedRequest(m),
            err matches APIErrorKind::HttpClient(h) ==> r == APIErrorKind::<E>::HttpClient(h),
            err matches APIErrorKind::Body(b) ==> r == APIErrorKind::<E>::Body(b),
            err matches APIErrorKind::Header(h) ==> r == APIErrorKind::<E>::Header(h),
            err matches APIErrorKind::MissingHeaderName ==> r == APIErrorKind::<
                E,
            >::MissingHeaderName,
            err matches APIErrorKind::Response(resp) ==> r == APIErrorKind::<E>::Response(resp),
            err matches APIErrorKind::Url(u) ==> r == APIErrorKind::<E>::Url(u),
            err matches APIErrorKind::Other(m) ==> r == APIErrorKind::<E>::Other(m),
    {
        match err {
            APIErrorKind::Client(e) => APIErrorKind::Client(e.into()),
            APIErrorKind::MalformedRequest(m) => APIErrorKind::MalformedRequest(m),
            APIErrorKind::HttpClient(h) => APIErrorKind::HttpClient(h),
            APIErrorKind::Body(b) => APIErrorKind::Body(b),
            APIErrorKind::Header(h) => APIErrorKind::Header(h),
            APIErrorKind::MissingHeaderName => APIErrorKind::MissingHeaderName,
            APIErrorKind::Response(resp) => APIErrorKind::Response(resp),
            APIErrorKind::Url(u) => APIErrorKind::Url(u),
            APIErrorKind::Other(m) => APIErrorKind::Other(m),
        }
    }

    /// Converts an `APIErrorKind<T>` into an `APIErrorKind<E>`, demoting
    /// the client error to [`APIErrorKind::Other`] and keeping every other
    /// kind unchanged.
    pub fn from_any_api_error<T: APIClientError>(err: APIErrorKind<T>) -> (r: APIErrorKind<E>)
        ensures
            err matches APIErrorKind::Client(c) ==> r@ == APIErrorKindView::<E>::Other(
                c.spec_message(),
            ),
            err matches APIErrorKind::MalformedRequest(m) ==> r == APIErrorKind::<
                E,
            >::MalformedRequest(m),
            err matches APIErrorKind::HttpClient(h) ==> r == APIErrorKind::<E>::HttpClient(h),
            err matches APIErrorKind::Body(b) ==> r == APIErrorKind::<E>::Body(b),
            err matches APIErrorKind::Header(h) ==> r == APIErrorKind::<E>::Header(h),
            err matches APIErrorKind::MissingHeaderName ==> r == APIErrorKind::<
                E,
            >::MissingHeaderName,
            err matches APIErrorKind::Response(resp) ==> r == APIErrorKind::<E>::Response(resp),
            err matches APIErrorKind::Url(u) ==> r == APIErrorKind::<E>::Url(u),
            err matches APIErrorKind::Other(m) ==> r == APIErrorKind::<E>::Other(m),
    {
        match err {
            APIErrorKind::Client(e) => APIErrorKind::Other(e.message()),
            APIErrorKind::MalformedRequest(m) => APIErrorKind::MalformedRequest(m),
            APIErrorKind::HttpClient(h) => APIErrorKind::HttpClient(h),
            APIErrorKind::Body(b) => APIErrorKind::Body(b),
            APIErrorKind::Header(h) => APIErrorKind::Header(h),
            APIErrorKind::MissingHeaderName => APIErrorKind::MissingHeaderName,
            APIErrorKind::Response(resp) => APIErrorKind::Response(resp),
            APIErrorKind::Url(u) => APIErrorKind::Url(u),
            APIErrorKind::Other(m) => APIErrorKind::Other(m),
        }
    }

    /// Lifts a caller error into [`APIErrorKind::Client`] through its
    /// conversion into the client error type.
    pub fn from_error<T: Into<E>>(err: T) -> (r: APIErrorKind<E>)
        ensures
            r is Client,
            <T as IntoSpec<E>>::obeys_into_spec() ==> r == APIErrorKind::<E>::Client(
                err.into_spec(),
            ),
    {
        APIErrorKind::Client(err.into())
    }

    /// Lifts an arbitrary error, described as text, into
    /// [`APIErrorKind::Other`].
    pub fn from_any_error(message: String) -> (r: APIErrorKind<E>)
        ensures
            r == APIErrorKind::<E>::Other(message),
    {
        APIErrorKind::Other(message)
    }
}

/// True when two kinds over different client error types hold the same
/// non-client failure, unchanged.
pub open spec fn spec_kind_carried_over<T: APIClientError, E: APIClientError>(
    t: APIErrorKind<T>,
    e: APIErrorKind<E>,
) -> bool {
    match t {
        APIErrorKind::Client(_) => false,
        APIErrorKind::MalformedRequest(m) => e == APIErrorKind::<E>::MalformedRequest(m),
        APIErrorKind::HttpClient(h) => e == APIErrorKind::<E>::HttpClient(h),
        APIErrorKind::Body(b) => e == APIErrorKind::<E>::Body(b),
        APIErrorKind::Header(h) => e == APIErrorKind::<E>::Header(h),
        APIErrorKind::MissingHeaderName => e == APIErrorKind::<E>::MissingHeaderName,
        APIErrorKind::Response(resp) => e == APIErrorKind::<E>::Response(resp),
        APIErrorKind::Url(u) => e == APIErrorKind::<E>::Url(u),
        APIErrorKind::Other(m) => e == APIErrorKind::<E>::Other(m),
    }
}

/// An error from a query, as one boxed [`APIErrorKind`].
#[derive(Debug)]
pub struct APIError<E: APIClientError> {
    kind: Box<APIErrorKind<E>>,
}

impl<E: APIClientError> View for APIError<E> {
    type V = APIErrorKindView<E>;

    open spec fn view(&self) -> APIErrorKindView<E> {
        self.spec_kind()@
    }
}

impl<E: APIClientError> APIError<E> {
    /// The kind this error boxes.
    pub closed spec fn spec_kind(&self) -> APIErrorKind<E> {
        *self.kind
    }

    /// Boxes a kind into an error.
    pub fn new(kind: APIErrorKind<E>) -> (r: Self)
        ensures
            r.spec_kind() == kind,
            r@ == kind@,
    {
        APIError { kind: Box::new(kind) }
    }

    /// The kind this error carries.
    pub fn kind(&self) -> (r: &APIErrorKind<E>)
        ensures
            r == self.spec_kind(),
            r@ == self@,
    {
        &self.kind
    }

    /// Unwraps the error into its kind.
    pub fn into_kind(self) -> (r: APIErrorKind<E>)
        ensures
            r == self.spec_kind(),
            r@ == self@,
    {
        *self.kind
    }

    /// Converts an `APIError<T>` into an `APIError<E>`, converting the
    /// client error and keeping every other kind unchanged.
    pub fn from_api_error<T: APIClientError + Into<E>>(err: APIError<T>) -> (r: APIError<E>)
        ensures
            err.spec_kind() matches APIErrorKind::Client(c) ==> r@ is Client,
            err.spec_kind() matches APIErrorKind::Client(c) ==> (<T as IntoSpec<
                E,
            >>::obeys_into_spec() ==> r.spec_kind() == APIErrorKind::<E>::Client(c.into_spec())),
            !(err.spec_kind() is Client) ==> spec_kind_carried_over(err.spec_kind(), r.spec_kind()),
    {
        APIError::new(APIErrorKind::from_api_error(err.into_kind()))
    }

    /// Converts an `APIError<T>` into an `APIError<E>`, demoting the
    /// client error to the opaque kind and keeping every other kind
    /// unchanged.
    pub fn from_any_api_error<T: APIClientError>(err: APIError<T>) -> (r: APIError<E>)
        ensures
            err.spec_kind() matches APIErrorKind::Client(c) ==> r@ == APIErrorKindView::<E>::Other(
                c.spec_message(),
            ),
            !(err.spec_kind() is Client) ==> spec_kind_carried_over(err.spec_kind(), r.spec_kind()),
    {
        APIError::new(APIErrorKind::from_any_api_error(err.into_kind()))
    }

    /// Lifts an arbitrary error, described as text, into the opaque kind.
    pub fn from_any_error(message: String) -> (r: APIError<E>)
        ensures
            r@ == APIErrorKindView::<E>::Other(message@),
    {
        APIError::new(APIErrorKind::from_any_error(message))
    }
}

impl<E: APIClientError> From<E> for APIErrorKind<E> {
    fn from(value: E) -> (r: Self) {
        APIErrorKind::Client(value)
    }
}

impl<E: APIClientError> vstd::std_specs::convert::FromSpecImpl<E> for APIErrorKind<E> {
    open spec fn obeys_from_spec() -> bool {
        true
    }

    open spec fn from_spec(value: E) -> Self {
        APIErrorKind::Client(value)
    }
}

impl<E: APIClientError> From<BodyError> for APIErrorKind<E> {
    fn from(value: BodyError) -> (r: Self) {
        APIErrorKind::Body(value)
    }
}

impl<E: APIClientError> vstd::std_specs::convert::FromSpecImpl<BodyError> for APIErrorKind<E> {
    open spec fn obeys_from_spec() -> bool {
        true
    }

    open spec fn from_spec(value: BodyError) -> Self {
        APIErrorKind::Body(value)
    }
}

impl<E: APIClientError> From<HeaderError> for APIErrorKind<E> {
    fn from(value: HeaderError) -> (r: Self) {
        APIErrorKind::Header(value)
    }
}

impl<E: APIClientError> vstd::std_specs::convert::FromSpecImpl<HeaderError> for APIErrorKind<E> {
    open spec fn obeys_from_spec() -> bool {
        true
    }

    open spec fn from_spec(value: HeaderError) -> Self {
        APIErrorKind::Header(value)
    }
}

impl<E: APIClientError> From<HttpClientError> for APIErrorKind<E> {
    fn from(value: HttpClientError) -> (r: Self) {
        APIErrorKind::HttpClient(value)
    }
}

impl<E: APIClientError> vstd::std_specs::convert::FromSpecImpl<HttpClientError> for APIErrorKind<E> {
    open spec fn obeys_from_spec() -> bool {
        true
    }

    open spec fn from_spec(value: HttpClientError) -> Self {
        APIErrorKind::HttpClient(value)
    }
}

impl<E: APIClientError> From<Response> for APIErrorKind<E> {
    fn from(value: Response) -> (r: Self) {
        APIErrorKind::Response(value)
    }
}

impl<E: APIClientError> vstd::std_specs::convert::FromSpecImpl<Response> for APIErrorKind<E> {
    open spec fn obeys_from_spec() -> bool {
        true
    }

    open spec fn from_spec(value: Response) -> Self {
        APIErrorKind::Response(value)
    }
}

impl<E: APIClientError> From<serde_json::Error> for APIErrorKind<E> {
    fn from(value: serde_json::Error) -> (r: Self) {
        APIErrorKind::Body(BodyError::SerdeJson(value))
    }
}

impl<E: APIClientError> vstd::std_specs::convert::FromSpecImpl<serde_json::Error> for APIErrorKind<E> {
    open spec fn obeys_from_spec() -> bool {
        true
    }

    open spec fn from_spec(value: serde_json::Error) -> Self {
        APIErrorKind::Body(BodyError::SerdeJson(value))
    }
}

} // verus!
