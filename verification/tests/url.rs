//! Tests of URL building: path, query string, percent-encoding.

use api_builder::endpoint::Endpoint;
use api_builder::error::BodyError;
use api_builder::error::HeaderError;
use api_builder::query_params::QueryParamPair;
use api_builder::query_params::QueryParamPairs;
use api_builder::wire::HeaderMap;
use api_builder::wire::Method;
use api_builder::wire::Response;

/// An endpoint with a configurable query-parameter set.
struct Listing {
    params: Option<QueryParamPairs>,
}

impl Endpoint for Listing {
    type Output = serde_json::Value;

    fn ignore_errors(&self) -> bool {
        false
    }

    fn method(&self) -> Method {
        Method::Get
    }

    fn path(&self) -> String {
        "/listing".to_string()
    }

    fn headers(&self) -> Result<Option<HeaderMap>, HeaderError> {
        Ok(None)
    }

    fn query_params(&self) -> Option<QueryParamPairs> {
        self.params.clone()
    }

    fn body(&self) -> Result<Option<(String, Vec<u8>)>, BodyError> {
        Ok(None)
    }

    fn deserialize(&self, response: Response) -> Result<serde_json::Value, BodyError> {
        api_builder::deserialize_json(&response)
    }
}

fn pairs(raw: &[(&str, &str)]) -> QueryParamPairs {
    let mut out = QueryParamPairs(Vec::new());
    for (k, v) in raw {
        out.push(QueryParamPair::new(k.to_string(), v.to_string()));
    }
    out
}

#[test]
fn url_without_query_params_is_the_path() {
    let endpoint = Listing { params: None };
    assert_eq!(endpoint.url(), "/listing");
}

#[test]
fn url_with_empty_query_params_is_the_path() {
    let endpoint = Listing { params: Some(QueryParamPairs(Vec::new())) };
    assert_eq!(endpoint.url(), "/listing");
}

#[test]
fn url_with_one_pair() {
    let endpoint = Listing { params: Some(pairs(&[("page", "2")])) };
    assert_eq!(endpoint.url(), "/listing?page=2");
}

#[test]
fn url_with_two_pairs_has_no_trailing_separator() {
    let endpoint = Listing { params: Some(pairs(&[("k1", "v1"), ("k2", "v2")])) };
    assert_eq!(endpoint.url(), "/listing?k1=v1&k2=v2");
}

#[test]
fn url_percent_encodes_keys_and_values() {
    let endpoint = Listing { params: Some(pairs(&[("q", "a b"), ("r", "x&y=z")])) };
    assert_eq!(endpoint.url(), "/listing?q=a+b&r=x%26y%3Dz");
}

#[test]
fn url_keeps_insertion_order_and_repeated_keys() {
    let endpoint = Listing { params: Some(pairs(&[("t", "1"), ("t", "0"), ("a", "x")])) };
    assert_eq!(endpoint.url(), "/listing?t=1&t=0&a=x");
}
