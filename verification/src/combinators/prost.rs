//! The binary-message strategy: decode the response body directly from
//! bytes, bypassing the endpoint's own decoding.

use crate::client::Client;
use crate::endpoint::Endpoint;
use crate::endpoint::spec_url;
use crate::error::APIClientError;
use crate::error::APIError;
use crate::error::APIErrorKind;
use crate::error::APIErrorKindView;
use crate::error::BodyError;
use crate::error::BodyErrorView;
use crate::query::Query;
use crate::query::build_request;
use crate::query::send_request;
use crate::query::spec_composed_rel;
use crate::query::spec_request_rel;
use crate::query::spec_send_rel;
use crate::wire::RequestBuilder;
use crate::wire::RequestBuilderView;
use crate::wire::Response;
use crate::wire::spec_status_is_success;
use vstd::prelude::*;

verus! {

/// A binary message type: one the binary-message codec can decode from
/// bytes. Implementations delegate to the codec itself; which byte
/// strings are valid encodings, and what they decode to, is the
/// implementation's own affair.
pub trait Message: Sized {
    /// Whether the bytes are a valid encoding of a value of this type.
    /// The default leaves it unspecified; a verified implementation
    /// provides its own.
    open spec fn spec_valid_encoding(bytes: Seq<u8>) -> bool {
        vstd::pervasive::arbitrary()
    }

    /// The value the bytes decode to, when they are a valid encoding.
    /// The default leaves it unspecified; a verified implementation
    /// provides its own.
    open spec fn spec_decoded(bytes: Seq<u8>) -> Self {
        vstd::pervasive::arbitrary()
    }

    /// Decodes a message from bytes: succeeds exactly on valid
    /// encodings, and the value depends on the bytes alone.
    fn decode_message(bytes: &[u8]) -> (r: Option<Self>)
        ensures
            r is Some <==> Self::spec_valid_encoding(bytes@),
            r matches Some(v) ==> v == Self::spec_decoded(bytes@),
    ;
}

/// What the binary-message strategy's finalize step must return: the
/// unsuccessful-response error carrying the response unchanged; or the
/// decoded message; or, when the accepted response's bytes are not a
/// valid encoding of the target type, the body/deserialize error.
pub open spec fn spec_message_finalise_rel<T: Message, Er: APIClientError>(
    ignore_errors: bool,
    response: Response,
    r: Result<T, APIError<Er>>,
) -> bool {
    if !spec_status_is_success(response@.status) && !ignore_errors {
        r matches Err(e) && e@ == APIErrorKindView::<Er>::Response(response@)
    } else if T::spec_valid_encoding(response@.body) {
        r == Result::<T, APIError<Er>>::Ok(T::spec_decoded(response@.body))
    } else {
        r matches Err(e) && e@ == APIErrorKindView::<Er>::Body(BodyErrorView::Deserialize)
    }
}

/// The binary-message strategy fails with the body/deserialize kind
/// exactly when the bytes of a response it accepts are not a valid
/// encoding of the target message type.
pub proof fn lemma_message_finalise_invalid<T: Message, Er: APIClientError>(
    ignore_errors: bool,
    response: Response,
    r: Result<T, APIError<Er>>,
)
    requires
        spec_message_finalise_rel::<T, Er>(ignore_errors, response, r),
        spec_status_is_success(response@.status) || ignore_errors,
        !T::spec_valid_encoding(response@.body),
    ensures
        r matches Err(e) && e@ == APIErrorKindView::<Er>::Body(BodyErrorView::Deserialize),
{
}

/// Finalises a response under the binary-message strategy: the status
/// policy of the default strategy, then a decode of the body bytes
/// directly, bypassing the endpoint's own decoding.
pub fn finalise_message<T: Message, E: Endpoint, Er: APIClientError>(
    endpoint: &E,
    response: Response,
) -> (r: Result<T, APIError<Er>>)
    ensures
        spec_message_finalise_rel::<T, Er>(endpoint.desc().ignore_errors, response, r),
{
    if !response.status_is_success() && !endpoint.ignore_errors() {
        Err(APIError::new(APIErrorKind::Response(response)))
    } else {
        match T::decode_message(response.body.as_slice()) {
            Some(v) => Ok(v),
            None => Err(APIError::new(APIErrorKind::Body(BodyError::Deserialize))),
        }
    }
}

/// A wrapper which decodes the response body as a binary message,
/// bypassing the inner endpoint's own decoding. The status-code policy
/// of the default strategy still applies; every other operation
/// delegates to the inner endpoint.
#[derive(Copy, Clone, Eq, PartialEq, Ord, PartialOrd, Hash, Debug, Default)]
pub struct Prost<E>(pub E);

impl<E: Endpoint, T: Message, C: Client> Query<T, C> for Prost<E> {
    open spec fn request_rel(&self, client: C, r: Result<RequestBuilder, APIError<C::Error>>) -> bool {
        spec_request_rel(
            self.0.desc(),
            client.resolve_spec(spec_url(self.0.desc().path, self.0.desc().query_params)),
            r,
        )
    }

    open spec fn send_rel(
        &self,
        client: C,
        request: RequestBuilderView,
        r: Result<Response, APIError<C::Error>>,
    ) -> bool {
        spec_send_rel(client, self.0.desc(), request, r)
    }

    open spec fn finalise_rel(&self, response: Response, r: Result<T, APIError<C::Error>>) -> bool {
        spec_message_finalise_rel::<T, C::Error>(self.0.desc().ignore_errors, response, r)
    }

    open spec fn query_rel(&self, client: C, r: Result<T, APIError<C::Error>>) -> bool {
        spec_composed_rel(
            client,
            self.0.desc(),
            client.resolve_spec(spec_url(self.0.desc().path, self.0.desc().query_params)),
            |resp: Response, res: Result<T, APIError<C::Error>>|
                spec_message_finalise_rel::<T, C::Error>(self.0.desc().ignore_errors, resp, res),
            r,
        )
    }

    fn request(&self, client: &C) -> (r: Result<RequestBuilder, APIError<C::Error>>) {
        build_request(&self.0, client)
    }

    fn send(&self, client: &C, request: RequestBuilder) -> (r: Result<Response, APIError<C::Error>>) {
        send_request(&self.0, client, request)
    }

    fn finalise(&self, response: Response) -> (r: Result<T, APIError<C::Error>>) {
        finalise_message::<T, E, C::Error>(&self.0, response)
    }

    fn query(&self, client: &C) -> (r: Result<T, APIError<C::Error>>) {
        let r1 = Query::<T, C>::request(self, client);
        match r1 {
            Err(e) => Err(e),
            Ok(rb) => {
                let r2 = Query::<T, C>::send(self, client, rb);
                match r2 {
                    Err(e) => Err(e),
                    Ok(resp) => Query::<T, C>::finalise(self, resp),
                }
            },
        }
    }
}

} // verus!
