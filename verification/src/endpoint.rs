//! The endpoint descriptor: what one REST API endpoint looks like.
//!
//! An implementation of [`Endpoint`] is an immutable per-call
//! description — method, path, headers, query parameters, body and
//! response decoding — and the [`crate::query`] pipeline consumes it.
//! The spec-level [`EndpointDesc`] is the mathematical value of the
//! description, and every operation is pinned to it.

use crate::error::BodyError;
use crate::error::BodyErrorView;
use crate::error::HeaderError;
use crate::error::HeaderErrorView;
use crate::query_params::QueryParamPairView;
use crate::query_params::QueryParamPairs;
use crate::url_encoding::encode_query_string;
use crate::url_encoding::encoded_of;
use crate::url_encoding::spec_encoded_pair;
use crate::url_encoding::spec_no_query_end;
use crate::url_encoding::spec_query_string;
use crate::wire::HeaderEntryView;
use crate::wire::HeaderMap;
use crate::wire::Method;
use crate::wire::Response;
use crate::wire::ResponseView;
use vstd::prelude::*;
use vstd::string::StringExecFns;

verus! {

/// The mathematical value of an endpoint description.
pub struct EndpointDesc {
    /// Whether the finalize step accepts any status code.
    pub ignore_errors: bool,
    /// The request method.
    pub method: Method,
    /// The path, relative or absolute by the transport's convention.
    pub path: Seq<char>,
    /// The additional headers, or the error producing them fails with.
    pub headers: Result<Option<Seq<HeaderEntryView>>, HeaderErrorView>,
    /// The query parameters, in order.
    pub query_params: Option<Seq<QueryParamPairView>>,
    /// The content type and body bytes, produced together or not at
    /// all, or the error producing them fails with.
    pub body: Result<Option<(Seq<char>, Seq<u8>)>, BodyErrorView>,
}

/// True when the header set an endpoint returned matches the one its
/// descriptor holds.
pub open spec fn spec_headers_match(
    r: Result<Option<HeaderMap>, HeaderError>,
    d: Result<Option<Seq<HeaderEntryView>>, HeaderErrorView>,
) -> bool {
    match (r, d) {
        (Result::Ok(Option::None), Result::Ok(Option::None)) => true,
        (Result::Ok(Option::Some(h)), Result::Ok(Option::Some(s))) => h@ == s,
        (Result::Err(e), Result::Err(ev)) => e@ == ev,
        _ => false,
    }
}

/// True when the query parameters an endpoint returned match the ones
/// its descriptor holds.
pub open spec fn spec_query_params_match(
    r: Option<QueryParamPairs>,
    d: Option<Seq<QueryParamPairView>>,
) -> bool {
    match (r, d) {
        (Option::None, Option::None) => true,
        (Option::Some(q), Option::Some(s)) => q@ == s,
        _ => false,
    }
}

/// True when the body an endpoint returned matches the one its
/// descriptor holds.
pub open spec fn spec_body_match(
    r: Result<Option<(String, Vec<u8>)>, BodyError>,
    d: Result<Option<(Seq<char>, Seq<u8>)>, BodyErrorView>,
) -> bool {
    match (r, d) {
        (Result::Ok(Option::None), Result::Ok(Option::None)) => true,
        (Result::Ok(Option::Some(b)), Result::Ok(Option::Some(s))) => b.0@ == s.0 && b.1@ == s.1,
        (Result::Err(e), Result::Err(ev)) => e@ == ev,
        _ => false,
    }
}

/// The URL an endpoint addresses: its path and, when query parameters
/// are present and the set is not empty, `?` and the encoded query
/// string.
pub open spec fn spec_url(path: Seq<char>, query: Option<Seq<QueryParamPairView>>) -> Seq<char> {
    match query {
        Option::None => path,
        Option::Some(pairs) => if pairs.len() == 0 {
            path
        } else {
            path + seq!['?'] + spec_query_string(pairs)
        },
    }
}

/// A description of a single REST API endpoint.
///
/// The customary defaults are conventions here: an implementation that
/// wants them returns `false` from [`Endpoint::ignore_errors`], GET
/// from [`Endpoint::method`], and `Ok(None)` or `None` from the
/// header, query and body operations.
pub trait Endpoint {
    /// The type a response decodes into.
    type Output;

    /// The descriptor this endpoint implements. The default leaves it
    /// unspecified; a verified implementation provides its own.
    open spec fn desc(&self) -> EndpointDesc {
        vstd::pervasive::arbitrary()
    }

    /// Whether `r` is a result [`Endpoint::deserialize`] may return for
    /// a response with this mathematical value. The default leaves it
    /// unspecified; a verified implementation provides its own.
    open spec fn deserialize_rel(
        &self,
        response: ResponseView,
        r: Result<Self::Output, BodyError>,
    ) -> bool {
        vstd::pervasive::arbitrary()
    }

    /// Ignores any errors returned by the API: when true, the finalize
    /// step accepts any status code.
    fn ignore_errors(&self) -> (r: bool)
        ensures
            r == self.desc().ignore_errors,
    ;

    /// The method for the endpoint.
    fn method(&self) -> (r: Method)
        ensures
            r == self.desc().method,
    ;

    /// The path for the endpoint.
    fn path(&self) -> (r: String)
        ensures
            r@ == self.desc().path,
    ;

    /// Any additional headers for the endpoint.
    fn headers(&self) -> (r: Result<Option<HeaderMap>, HeaderError>)
        ensures
            spec_headers_match(r, self.desc().headers),
    ;

    /// The query parameters for the endpoint.
    fn query_params(&self) -> (r: Option<QueryParamPairs>)
        ensures
            spec_query_params_match(r, self.desc().query_params),
    ;

    /// The body for the endpoint: the content type for the data as well
    /// as the data itself.
    fn body(&self) -> (r: Result<Option<(String, Vec<u8>)>, BodyError>)
        ensures
            spec_body_match(r, self.desc().body),
    ;

    /// Decodes the response into [`Endpoint::Output`].
    fn deserialize(&self, response: Response) -> (r: Result<Self::Output, BodyError>)
        ensures
            self.deserialize_rel(response@, r),
    ;

    /// Builds the full URL, including the encoded query string. What
    /// follows the `?` is query-end-free, so that `?` stays the URL's
    /// only one and no fragment begins.
    fn url(&self) -> (r: String)
        ensures
            r@ == spec_url(self.desc().path, self.desc().query_params),
            self.desc().query_params matches Some(ps) ==> (ps.len() > 0 ==> spec_no_query_end(
                r@.skip(self.desc().path.len() as int + 1),
            )),
    {
        let mut url = self.path();
        if let Some(query) = self.query_params() {
            if query.0.len() > 0 {
                url.append("?");
                let encoded = encode_query_string(&query);
                url.append(encoded.as_str());
                proof {
                    reveal_strlit("?");
                    assert(url@ =~= spec_url(self.desc().path, self.desc().query_params));
                    assert(url@.skip(self.desc().path.len() as int + 1) =~= encoded@);
                }
            }
        }
        url
    }
}

/// With no query parameters at all, and likewise with an empty set of
/// pairs, the URL is the path alone.
pub proof fn lemma_url_without_query(path: Seq<char>, query: Option<Seq<QueryParamPairView>>)
    requires
        query matches Some(pairs) ==> pairs.len() == 0,
    ensures
        spec_url(path, query) == path,
{
}

/// With pairs `[(k1, v1), (k2, v2)]` the URL is the path, `?`, and
/// `encode(k1)=encode(v1)&encode(k2)=encode(v2)`, with no trailing
/// separator.
pub proof fn lemma_url_two_pairs(path: Seq<char>, p1: QueryParamPairView, p2: QueryParamPairView)
    ensures
        spec_url(path, Some(seq![p1, p2])) == path + seq!['?'] + encoded_of(p1.key) + seq!['=']
            + encoded_of(p1.value) + seq!['&'] + encoded_of(p2.key) + seq!['='] + encoded_of(
            p2.value,
        ),
{
    let pairs = seq![p1, p2];
    assert(pairs.drop_last() =~= seq![p1]);
    assert(pairs.last() == p2);
    assert(spec_query_string(seq![p1]) == spec_encoded_pair(p1));
    assert(spec_url(path, Some(pairs)) =~= path + seq!['?'] + encoded_of(p1.key) + seq!['=']
        + encoded_of(p1.value) + seq!['&'] + encoded_of(p2.key) + seq!['='] + encoded_of(p2.value));
}

} // verus!
