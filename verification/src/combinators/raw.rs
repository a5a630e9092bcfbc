//! The raw passthrough strategy: no decoding at all.

use crate::client::Client;
use crate::endpoint::Endpoint;
use crate::endpoint::spec_url;
use crate::error::APIClientError;
use crate::error::APIError;
use crate::error::APIErrorKind;
use crate::error::APIErrorKindView;
use crate::query::Query;
use crate::query::build_request;
use crate::query::send_request;
use crate::query::spec_composed_rel;
use crate::query::spec_request_rel;
use crate::query::spec_send_rel;
use crate::wire::RequestBuilder;
use crate::wire::RequestBuilderView;
use crate::wire::Response;
use crate::wire::spec_status_is_success;
use vstd::prelude::*;

verus! {

/// A wrapper which skips decoding: on success the response is returned
/// unchanged. The status-code policy of the default strategy still
/// applies; every other operation delegates to the inner endpoint.
pub struct Raw<E>(pub E);

/// What the raw strategy's finalize step must return: the
/// unsuccessful-response error carrying the response unchanged, or the
/// response itself, untouched — decoding is never invoked.
pub open spec fn spec_raw_finalise_rel<Er: APIClientError>(
    ignore_errors: bool,
    response: Response,
    r: Result<Response, APIError<Er>>,
) -> bool {
    if !spec_status_is_success(response@.status) && !ignore_errors {
        r matches Err(e) && e@ == APIErrorKindView::<Er>::Response(response@)
    } else {
        r == Result::<Response, APIError<Er>>::Ok(response)
    }
}

/// The raw strategy never decodes: on every response it accepts, its
/// result is the input response itself, so in particular the result's
/// body bytes equal the response's body bytes exactly.
pub proof fn lemma_raw_finalise_identity<Er: APIClientError>(
    ignore_errors: bool,
    response: Response,
    r: Result<Response, APIError<Er>>,
)
    requires
        spec_raw_finalise_rel(ignore_errors, response, r),
        spec_status_is_success(response@.status) || ignore_errors,
    ensures
        r matches Ok(out) && out == response,
        r matches Ok(out) && out@.body == response@.body,
{
}

/// Finalises a response under the raw strategy: the status policy of
/// the default strategy, then the response itself, untouched.
pub fn finalise_raw<E: Endpoint, Er: APIClientError>(endpoint: &E, response: Response) -> (r:
    Result<Response, APIError<Er>>)
    ensures
        spec_raw_finalise_rel(endpoint.desc().ignore_errors, response, r),
{
    if !response.status_is_success() && !endpoint.ignore_errors() {
        Err(APIError::new(APIErrorKind::Response(response)))
    } else {
        Ok(response)
    }
}

impl<E: Endpoint, C: Client> Query<Response, C> for Raw<E> {
    open spec fn request_rel(&self, client: C, r: Result<RequestBuilder, APIError<C::Error>>) -> bool {
        spec_request_rel(
            self.0.desc(),
            client.resolve_spec(spec_url(self.0.desc().path, self.0.desc().query_params)),
            r,
        )
    }

    open spec fn send_rel(
        &self,
        client: C,
        request: RequestBuilderView,
        r: Result<Response, APIError<C::Error>>,
    ) -> bool {
        spec_send_rel(client, self.0.desc(), request, r)
    }

    open spec fn finalise_rel(&self, response: Response, r: Result<Response, APIError<C::Error>>) -> bool {
        spec_raw_finalise_rel(self.0.desc().ignore_errors, response, r)
    }

    open spec fn query_rel(&self, client: C, r: Result<Response, APIError<C::Error>>) -> bool {
        spec_composed_rel(
            client,
            self.0.desc(),
            client.resolve_spec(spec_url(self.0.desc().path, self.0.desc().query_params)),
            |resp: Response, res: Result<Response, APIError<C::Error>>|
                spec_raw_finalise_rel(self.0.desc().ignore_errors, resp, res),
            r,
        )
    }

    fn request(&self, client: &C) -> (r: Result<RequestBuilder, APIError<C::Error>>) {
        build_request(&self.0, client)
    }

    fn send(&self, client: &C, request: RequestBuilder) -> (r: Result<Response, APIError<C::Error>>) {
        send_request(&self.0, client, request)
    }

    fn finalise(&self, response: Response) -> (r: Result<Response, APIError<C::Error>>) {
        finalise_raw::<E, C::Error>(&self.0, response)
    }

    fn query(&self, client: &C) -> (r: Result<Response, APIError<C::Error>>) {
        let r1 = Query::<Response, C>::request(self, client);
        match r1 {
            Err(e) => Err(e),
            Ok(rb) => {
                let r2 = Query::<Response, C>::send(self, client, rb);
                match r2 {
                    Err(e) => Err(e),
                    Ok(resp) => Query::<Response, C>::finalise(self, resp),
                }
            },
        }
    }
}

} // verus!
