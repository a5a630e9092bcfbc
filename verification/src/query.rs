//! The query pipeline: request, send, finalise, composed into query.
//!
//! The three steps are ordinary functions of the endpoint's descriptor
//! and of what the client returned; [`Query::query`] is their
//! composition, making exactly one network call. Each step's contract
//! pins its result to the descriptor; the transport's answer is the one
//! thing left open, since the remote end may answer anything.

use crate::client::Client;
use crate::client::RestClient;
use crate::endpoint::Endpoint;
use crate::endpoint::EndpointDesc;
use crate::endpoint::spec_url;
use crate::error::APIClientError;
use crate::error::APIError;
use crate::error::APIErrorKind;
use crate::error::APIErrorKindView;
use crate::error::BodyError;
use crate::wire::HeaderEntryView;
use crate::wire::HeaderMap;
use crate::wire::Request;
use crate::wire::RequestBuilder;
use crate::wire::RequestBuilderView;
use crate::wire::RequestView;
use crate::wire::Response;
use crate::wire::spec_status_is_success;
use crate::wire::spec_valid_header_name;
use crate::wire::spec_valid_header_value;
use crate::wire::valid_header_value;
use vstd::prelude::*;
use vstd::string::StringExecFns;

verus! {

/// The canonical name of the content-type header.
pub open spec fn spec_content_type_name() -> Seq<char> {
    seq!['c', 'o', 'n', 't', 'e', 'n', 't', '-', 't', 'y', 'p', 'e']
}

/// The canonical content-type header name is a valid header name.
pub proof fn lemma_content_type_name_valid()
    ensures
        spec_valid_header_name(spec_content_type_name()),
{
    let s = spec_content_type_name();
    assert(s[0] == 'c' && s[1] == 'o' && s[2] == 'n' && s[3] == 't' && s[4] == 'e' && s[5] == 'n'
        && s[6] == 't' && s[7] == '-' && s[8] == 't' && s[9] == 'y' && s[10] == 'p' && s[11]
        == 'e');
    assert forall|i: int| 0 <= i < s.len() implies crate::wire::spec_header_name_char(
        #[trigger] s[i],
    ) by {
        if i == 7 {
            assert(s[i] == '-');
        }
    }
}

/// Every header entry is named.
pub open spec fn spec_all_named(entries: Seq<HeaderEntryView>) -> bool {
    forall|i: int| 0 <= i < entries.len() ==> (#[trigger] entries[i]).name is Some
}

/// What the request step must return, given the endpoint's descriptor
/// and the outcome of resolving the endpoint's URL through the client:
/// a failure to resolve, or to produce the headers, or a header without
/// a name, is the step's error; otherwise a request under construction
/// with the descriptor's method, the resolved URL and the headers.
pub open spec fn spec_request_rel<Er: APIClientError>(
    d: EndpointDesc,
    resolve: Result<Seq<char>, APIErrorKindView<Er>>,
    r: Result<RequestBuilder, APIError<Er>>,
) -> bool {
    match resolve {
        Result::Err(ev) => r matches Err(e) && e@ == ev,
        Result::Ok(u) => match d.headers {
            Result::Err(he) => r matches Err(e) && e@ == APIErrorKindView::<Er>::Header(he),
            Result::Ok(hs) => {
                let entries = match hs {
                    Option::None => Seq::<HeaderEntryView>::empty(),
                    Option::Some(s) => s,
                };
                if spec_all_named(entries) {
                    r matches Ok(b) && b@.method == d.method && b@.uri == u && b@.headers
                        == entries
                } else {
                    r matches Err(e) && e@ == APIErrorKindView::<Er>::MissingHeaderName
                }
            },
        },
    }
}

/// Starts building the query request: resolves the endpoint's URL
/// through the client and attaches the method and the endpoint's
/// headers; a header without a name is refused.
#[verifier::loop_isolation(false)]
pub fn build_request<E: Endpoint, C: RestClient>(endpoint: &E, client: &C) -> (r: Result<
    RequestBuilder,
    APIError<C::Error>,
>)
    ensures
        spec_request_rel(
            endpoint.desc(),
            client.resolve_spec(spec_url(endpoint.desc().path, endpoint.desc().query_params)),
            r,
        ),
{
    let method = endpoint.method();
    let url = endpoint.url();
    let uri = match client.rest_endpoint(url.as_str()) {
        Ok(u) => u,
        Err(e) => {
            return Err(e);
        },
    };
    let headers = match endpoint.headers() {
        Ok(h) => h,
        Err(e) => {
            return Err(APIError::new(APIErrorKind::Header(e)));
        },
    };
    let header_map = match headers {
        None => HeaderMap::new(),
        Some(hs) => {
            let n = hs.0.len();
            let mut i: usize = 0;
            while i < n
                invariant
                    i <= n,
                    n == hs@.len(),
                    forall|j: int| 0 <= j < i ==> (#[trigger] hs@[j]).name is Some,
                decreases n - i,
            {
                if hs.0[i].name.is_none() {
                    proof {
                        assert(hs@[i as int].name is None);
                        assert(!spec_all_named(hs@));
                    }
                    return Err(APIError::new(APIErrorKind::MissingHeaderName));
                }
                i = i + 1;
            }
            hs
        },
    };
    Ok(RequestBuilder { method, uri, headers: header_map })
}

/// What the send step puts on the wire, given the endpoint's descriptor
/// and the request built so far: the request with an empty body, or
/// with the endpoint's body bytes and its content type appended as a
/// header; a failure to produce the body, or a content type no header
/// may hold, is the step's error.
pub open spec fn spec_prepared_request<Er: APIClientError>(
    d: EndpointDesc,
    b: RequestBuilderView,
) -> Result<RequestView, APIErrorKindView<Er>> {
    match d.body {
        Result::Err(be) => Result::Err(APIErrorKindView::<Er>::Body(be)),
        Result::Ok(Option::None) => Result::Ok(
            RequestView { method: b.method, uri: b.uri, headers: b.headers, body: Seq::empty() },
        ),
        Result::Ok(Option::Some(body)) => if spec_valid_header_value(body.0) {
            Result::Ok(
                RequestView {
                    method: b.method,
                    uri: b.uri,
                    headers: b.headers.push(
                        HeaderEntryView { name: Option::Some(spec_content_type_name()), value: body.0 },
                    ),
                    body: body.1,
                },
            )
        } else {
            Result::Err(APIErrorKindView::<Er>::MalformedRequest(body.0))
        },
    }
}

/// Attaches the endpoint's body and content type to the request under
/// construction, finishing the request for the wire.
pub fn prepare_request<E: Endpoint, Er: APIClientError>(endpoint: &E, builder: RequestBuilder) -> (r:
    Result<Request, APIError<Er>>)
    ensures
        match spec_prepared_request::<Er>(endpoint.desc(), builder@) {
            Result::Ok(reqv) => r matches Ok(req) && req@ == reqv,
            Result::Err(kv) => r matches Err(e) && e@ == kv,
        },
{
    match endpoint.body() {
        Err(be) => Err(APIError::new(APIErrorKind::Body(be))),
        Ok(None) => Ok(builder.body(Vec::new())),
        Ok(Some((content_type, bytes))) => {
            if !valid_header_value(content_type.as_str()) {
                return Err(APIError::new(APIErrorKind::MalformedRequest(content_type)));
            }
            let name = String::from_str("content-type");
            proof {
                reveal_strlit("content-type");
                lemma_content_type_name_valid();
                assert(name@ =~= spec_content_type_name());
            }
            let with_type = builder.header(name, content_type);
            Ok(with_type.body(bytes))
        },
    }
}

/// What the send step must return: the error of preparing the request,
/// or an answer the client's transport may produce for the prepared
/// request.
pub open spec fn spec_send_rel<C: Client>(
    client: C,
    d: EndpointDesc,
    b: RequestBuilderView,
    r: Result<Response, APIError<C::Error>>,
) -> bool {
    match spec_prepared_request::<C::Error>(d, b) {
        Result::Err(kv) => r matches Err(e) && e@ == kv,
        Result::Ok(reqv) => client.rest_rel(reqv, r),
    }
}

/// Sends the request: attaches the endpoint's body and delegates to the
/// client's transport.
pub fn send_request<E: Endpoint, C: Client>(
    endpoint: &E,
    client: &C,
    request: RequestBuilder,
) -> (r: Result<Response, APIError<C::Error>>)
    ensures
        spec_send_rel(*client, endpoint.desc(), request@, r),
{
    match prepare_request::<E, C::Error>(endpoint, request) {
        Ok(req) => client.rest(req),
        Err(e) => Err(e),
    }
}

/// Whether `r` lifts a decode outcome: a decoded value is passed
/// through unchanged, a body error is lifted into the top-level kind.
pub open spec fn spec_body_result_lift<T, Er: APIClientError>(
    dr: Result<T, BodyError>,
    r: Result<T, APIError<Er>>,
) -> bool {
    match dr {
        Result::Ok(v) => r == Result::<T, APIError<Er>>::Ok(v),
        Result::Err(be) => r matches Err(e) && e@ == APIErrorKindView::<Er>::Body(be@),
    }
}

/// What the finalize step of the default, deserializing strategy must
/// return: the unsuccessful-response error, carrying the response
/// unchanged, when the status is not successful and the endpoint does
/// not ignore errors; otherwise the outcome of the endpoint's decode,
/// lifted.
pub open spec fn spec_default_finalise_rel<E: Endpoint, Er: APIClientError>(
    endpoint: E,
    response: Response,
    r: Result<E::Output, APIError<Er>>,
) -> bool {
    if !spec_status_is_success(response@.status) && !endpoint.desc().ignore_errors {
        r matches Err(e) && e@ == APIErrorKindView::<Er>::Response(response@)
    } else {
        exists|dr: Result<E::Output, BodyError>|
            #[trigger] endpoint.deserialize_rel(response@, dr) && spec_body_result_lift(dr, r)
    }
}

/// Finalises a response under the default, deserializing strategy: an
/// unsuccessful status the endpoint does not ignore fails with the
/// unsuccessful-response kind, carrying the response unchanged;
/// otherwise the endpoint's decode runs and its outcome is lifted.
pub fn finalise_default<E: Endpoint, Er: APIClientError>(endpoint: &E, response: Response) -> (r:
    Result<E::Output, APIError<Er>>)
    ensures
        spec_default_finalise_rel(*endpoint, response, r),
{
    if !response.status_is_success() && !endpoint.ignore_errors() {
        Err(APIError::new(APIErrorKind::Response(response)))
    } else {
        match endpoint.deserialize(response) {
            Ok(v) => Ok(v),
            Err(be) => Err(APIError::new(APIErrorKind::Body(be))),
        }
    }
}

/// A query which may be made to a client: the four-step protocol over
/// one endpoint and one response-handling strategy.
pub trait Query<T, C: Client> {
    /// Whether `r` is a result the request step may return.
    spec fn request_rel(&self, client: C, r: Result<RequestBuilder, APIError<C::Error>>) -> bool;

    /// Whether `r` is a result the send step may return for a request
    /// built so far.
    spec fn send_rel(
        &self,
        client: C,
        request: RequestBuilderView,
        r: Result<Response, APIError<C::Error>>,
    ) -> bool;

    /// Whether `r` is a result the finalize step may return for the
    /// response.
    spec fn finalise_rel(&self, response: Response, r: Result<T, APIError<C::Error>>) -> bool;

    /// Whether `r` is a result the whole query may return; for every
    /// strategy of this library it is [`spec_composed_rel`], the
    /// composition of the three steps.
    spec fn query_rel(&self, client: C, r: Result<T, APIError<C::Error>>) -> bool;

    /// Starts building the query request.
    fn request(&self, client: &C) -> (r: Result<RequestBuilder, APIError<C::Error>>)
        ensures
            self.request_rel(*client, r),
    ;

    /// Sends the request.
    fn send(&self, client: &C, request: RequestBuilder) -> (r: Result<Response, APIError<C::Error>>)
        ensures
            self.send_rel(*client, request@, r),
    ;

    /// Finalises the request by returning the response, decoded by this
    /// query's strategy.
    fn finalise(&self, response: Response) -> (r: Result<T, APIError<C::Error>>)
        ensures
            self.finalise_rel(response, r),
    ;

    /// Performs the query against the client: request, send — exactly
    /// one network call — and finalise, composed in order.
    fn query(&self, client: &C) -> (r: Result<T, APIError<C::Error>>)
        ensures
            self.query_rel(*client, r),
    ;
}

/// The composition of the pipeline: every result of [`Query::query`]
/// arises as a finalise (the strategy's own, `fin`) of a send of a
/// request, in order; an error ends the query at its step, unchanged.
pub open spec fn spec_composed_rel<T, C: Client>(
    client: C,
    d: EndpointDesc,
    resolve: Result<Seq<char>, APIErrorKindView<C::Error>>,
    fin: spec_fn(Response, Result<T, APIError<C::Error>>) -> bool,
    r: Result<T, APIError<C::Error>>,
) -> bool {
    exists|r1: Result<RequestBuilder, APIError<C::Error>>|
        #[trigger] spec_request_rel(d, resolve, r1) && match r1 {
            Result::Ok(rb) => exists|r2: Result<Response, APIError<C::Error>>|
                #[trigger] spec_send_rel(client, d, rb@, r2) && match r2 {
                    Result::Ok(resp) => fin(resp, r),
                    Result::Err(e) => r matches Err(e2) && e2 == e,
                },
            Result::Err(e) => r matches Err(e2) && e2 == e,
        }
}

/// The composition law, applied: results of the three steps, taken in
/// order and each passed to the next, compose into a valid result of
/// [`Query::query`], for every finalization strategy `fin`.
pub proof fn lemma_query_is_composition<T, C: Client>(
    client: C,
    d: EndpointDesc,
    resolve: Result<Seq<char>, APIErrorKindView<C::Error>>,
    fin: spec_fn(Response, Result<T, APIError<C::Error>>) -> bool,
    r1: Result<RequestBuilder, APIError<C::Error>>,
    r2: Result<Response, APIError<C::Error>>,
    r: Result<T, APIError<C::Error>>,
)
    requires
        spec_request_rel(d, resolve, r1),
        r1 matches Ok(rb) ==> spec_send_rel(client, d, rb@, r2),
        match r1 {
            Result::Ok(rb) => match r2 {
                Result::Ok(resp) => fin(resp, r),
                Result::Err(e) => r matches Err(e2) && e2 == e,
            },
            Result::Err(e) => r matches Err(e2) && e2 == e,
        },
    ensures
        spec_composed_rel(client, d, resolve, fin, r),
{
}

/// An unsuccessful response, with `ignore_errors` false, finalizes to
/// the unsuccessful-response error, and the response it carries —
/// status, headers and body — is the input response, unchanged.
pub proof fn lemma_default_finalise_unsuccessful<E: Endpoint, Er: APIClientError>(
    endpoint: E,
    response: Response,
    r: Result<E::Output, APIError<Er>>,
)
    requires
        spec_default_finalise_rel(endpoint, response, r),
        !spec_status_is_success(response@.status),
        !endpoint.desc().ignore_errors,
    ensures
        r matches Err(e) && e@ == APIErrorKindView::<Er>::Response(response@),
{
}

/// With `ignore_errors` true the finalize step accepts any status and
/// passes the response on to the endpoint's decode; the result is the
/// decode's outcome, lifted.
pub proof fn lemma_default_finalise_ignores_errors<E: Endpoint, Er: APIClientError>(
    endpoint: E,
    response: Response,
    r: Result<E::Output, APIError<Er>>,
)
    requires
        spec_default_finalise_rel(endpoint, response, r),
        endpoint.desc().ignore_errors,
    ensures
        exists|dr: Result<E::Output, BodyError>|
            #[trigger] endpoint.deserialize_rel(response@, dr) && spec_body_result_lift(dr, r),
{
}

/// The request step is a function of the endpoint's own descriptor and
/// of the client's resolution alone: two queries with equal descriptors
/// and equal resolutions build requests with equal mathematical values,
/// and nothing of any other endpoint enters either request.
pub proof fn lemma_request_independent<Er: APIClientError>(
    d1: EndpointDesc,
    d2: EndpointDesc,
    resolve1: Result<Seq<char>, APIErrorKindView<Er>>,
    resolve2: Result<Seq<char>, APIErrorKindView<Er>>,
    r1: Result<RequestBuilder, APIError<Er>>,
    r2: Result<RequestBuilder, APIError<Er>>,
)
    requires
        spec_request_rel(d1, resolve1, r1),
        spec_request_rel(d2, resolve2, r2),
        d1 == d2,
        resolve1 == resolve2,
    ensures
        r1 is Ok <==> r2 is Ok,
        r1 matches Ok(b1) ==> (r2 matches Ok(b2) && b1@ == b2@),
{
    if r1 is Ok {
        let b1 = r1->Ok_0;
        let b2 = r2->Ok_0;
        assert(b1@ =~= b2@);
    }
}

impl<E: Endpoint<Output = T>, T, C: Client> Query<T, C> for E {
    open spec fn request_rel(&self, client: C, r: Result<RequestBuilder, APIError<C::Error>>) -> bool {
        spec_request_rel(
            self.desc(),
            client.resolve_spec(spec_url(self.desc().path, self.desc().query_params)),
            r,
        )
    }

    open spec fn send_rel(
        &self,
        client: C,
        request: RequestBuilderView,
        r: Result<Response, APIError<C::Error>>,
    ) -> bool {
        spec_send_rel(client, self.desc(), request, r)
    }

    open spec fn finalise_rel(&self, response: Response, r: Result<T, APIError<C::Error>>) -> bool {
        spec_default_finalise_rel(*self, response, r)
    }

    open spec fn query_rel(&self, client: C, r: Result<T, APIError<C::Error>>) -> bool {
        spec_composed_rel(
            client,
            self.desc(),
            client.resolve_spec(spec_url(self.desc().path, self.desc().query_params)),
            |resp: Response, res: Result<T, APIError<C::Error>>|
                spec_default_finalise_rel(*self, resp, res),
            r,
        )
    }

    fn request(&self, client: &C) -> (r: Result<RequestBuilder, APIError<C::Error>>) {
        build_request(self, client)
    }

    fn send(&self, client: &C, request: RequestBuilder) -> (r: Result<Response, APIError<C::Error>>) {
        send_request(self, client, request)
    }

    fn finalise(&self, response: Response) -> (r: Result<T, APIError<C::Error>>) {
        finalise_default::<E, C::Error>(self, response)
    }

    fn query(&self, client: &C) -> (r: Result<T, APIError<C::Error>>) {
        let r1 = Query::<T, C>::request(self, client);
        match r1 {
            Err(e) => Err(e),
            Ok(rb) => {
                let r2 = Query::<T, C>::send(self, client, rb);
                match r2 {
                    Err(e) => Err(e),
                    Ok(resp) => Query::<T, C>::finalise(self, resp),
                }
            },
        }
    }
}

} // verus!
