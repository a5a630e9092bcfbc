//! End-to-end tests of the query pipeline against a mock transport.

use std::cell::RefCell;

use api_builder::client::Client;
use api_builder::client::RestClient;
use api_builder::endpoint::Endpoint;
use api_builder::error::APIClientError;
use api_builder::error::APIError;
use api_builder::error::APIErrorKind;
use api_builder::error::BodyError;
use api_builder::error::HeaderError;
use api_builder::query::Query;
use api_builder::wire::HeaderEntry;
use api_builder::wire::HeaderMap;
use api_builder::wire::Method;
use api_builder::wire::Request;
use api_builder::wire::Response;
use api_builder::Raw;

#[derive(Debug, PartialEq, Eq, Clone)]
struct MockError(String);

impl APIClientError for MockError {
    fn message(&self) -> String {
        self.0.clone()
    }
}

/// A deterministic transport: resolves against a fixed base and
/// answers every request with a canned response, recording requests.
struct MockClient {
    base: String,
    response: Response,
    fail_resolve: bool,
    seen: RefCell<Vec<Request>>,
}

impl MockClient {
    fn new(response: Response) -> Self {
        MockClient {
            base: "https://api.example.test".to_string(),
            response,
            fail_resolve: false,
            seen: RefCell::new(Vec::new()),
        }
    }
}

impl RestClient for MockClient {
    type Error = MockError;

    fn rest_endpoint(&self, path: &str) -> Result<String, APIError<MockError>> {
        if self.fail_resolve {
            return Err(APIError::new(APIErrorKind::Url(path.to_string())));
        }
        let mut url = self.base.clone();
        url.push_str(path);
        Ok(url)
    }
}

impl Client for MockClient {
    fn rest(&self, request: Request) -> Result<Response, APIError<MockError>> {
        self.seen.borrow_mut().push(request);
        Ok(self.response.clone())
    }
}

/// A configurable endpoint decoding the body as a JSON value.
struct JsonEndpoint {
    path: String,
    method: Method,
    ignore: bool,
    headers: Result<Option<HeaderMap>, HeaderError>,
    params: Option<api_builder::query_params::QueryParamPairs>,
    body: Result<Option<(String, Vec<u8>)>, BodyError>,
}

impl JsonEndpoint {
    fn get(path: &str) -> Self {
        JsonEndpoint {
            path: path.to_string(),
            method: Method::Get,
            ignore: false,
            headers: Ok(None),
            params: None,
            body: Ok(None),
        }
    }
}

fn clone_headers(
    headers: &Result<Option<HeaderMap>, HeaderError>,
) -> Result<Option<HeaderMap>, HeaderError> {
    match headers {
        Ok(h) => Ok(h.clone()),
        Err(e) => Err(e.clone()),
    }
}

impl Endpoint for JsonEndpoint {
    type Output = serde_json::Value;

    fn ignore_errors(&self) -> bool {
        self.ignore
    }

    fn method(&self) -> Method {
        self.method
    }

    fn path(&self) -> String {
        self.path.clone()
    }

    fn headers(&self) -> Result<Option<HeaderMap>, HeaderError> {
        clone_headers(&self.headers)
    }

    fn query_params(&self) -> Option<api_builder::query_params::QueryParamPairs> {
        self.params.clone()
    }

    fn body(&self) -> Result<Option<(String, Vec<u8>)>, BodyError> {
        match &self.body {
            Ok(None) => Ok(None),
            Ok(Some((t, b))) => Ok(Some((t.clone(), b.clone()))),
            Err(BodyError::InsufficientData) => Err(BodyError::InsufficientData),
            Err(_) => Err(BodyError::Build),
        }
    }

    fn deserialize(&self, response: Response) -> Result<serde_json::Value, BodyError> {
        api_builder::deserialize_json(&response)
    }
}

fn response(status: u16, body: &[u8]) -> Response {
    Response {
        status,
        headers: HeaderMap(vec![HeaderEntry {
            name: Some("x-trace".to_string()),
            value: "7".to_string(),
        }]),
        body: body.to_vec(),
    }
}

#[test]
fn query_decodes_json_body() {
    let client = MockClient::new(response(200, b"{\"answer\": 42}"));
    let endpoint = JsonEndpoint::get("/value");
    let got = Query::<serde_json::Value, MockClient>::query(&endpoint, &client).unwrap();
    assert_eq!(got["answer"], serde_json::Value::from(42));
    let seen = client.seen.borrow();
    assert_eq!(seen.len(), 1);
    assert_eq!(seen[0].uri, "https://api.example.test/value");
    assert_eq!(seen[0].method, Method::Get);
    assert_eq!(seen[0].body, Vec::<u8>::new());
}

#[test]
fn finalise_on_unsuccessful_status_returns_the_response_unchanged() {
    let canned = response(404, b"not here");
    let endpoint = JsonEndpoint::get("/value");
    let err = Query::<serde_json::Value, MockClient>::finalise(&endpoint, canned.clone())
        .unwrap_err();
    match err.kind() {
        APIErrorKind::Response(wrapped) => {
            assert_eq!(wrapped.status, canned.status);
            assert_eq!(wrapped.headers, canned.headers);
            assert_eq!(wrapped.body, canned.body);
        },
        other => panic!("wrong kind: {:?}", other),
    }
}

#[test]
fn finalise_with_ignore_errors_passes_the_body_to_deserialize() {
    let canned = response(404, b"{\"kept\": true}");
    let mut endpoint = JsonEndpoint::get("/value");
    endpoint.ignore = true;
    let got = Query::<serde_json::Value, MockClient>::finalise(&endpoint, canned).unwrap();
    assert_eq!(got["kept"], serde_json::Value::from(true));
}

#[test]
fn raw_finalise_returns_the_body_bytes_exactly() {
    let canned = response(200, b"\x00\x01raw, not JSON");
    let endpoint = Raw(JsonEndpoint::get("/value"));
    let got = Query::<Response, MockClient>::finalise(&endpoint, canned.clone()).unwrap();
    assert_eq!(got, canned);
    assert_eq!(got.body, canned.body);
}

#[test]
fn raw_still_applies_the_status_policy() {
    let canned = response(503, b"busy");
    let endpoint = Raw(JsonEndpoint::get("/value"));
    let err = Query::<Response, MockClient>::finalise(&endpoint, canned.clone()).unwrap_err();
    match err.kind() {
        APIErrorKind::Response(wrapped) => assert_eq!(*wrapped, canned),
        other => panic!("wrong kind: {:?}", other),
    }
}

#[test]
fn raw_query_returns_the_whole_response() {
    let canned = response(200, b"anything");
    let client = MockClient::new(canned.clone());
    let endpoint = Raw(JsonEndpoint::get("/value"));
    let got = Query::<Response, MockClient>::query(&endpoint, &client).unwrap();
    assert_eq!(got, canned);
}

#[test]
fn query_equals_finalise_of_send_of_request() {
    let canned = response(200, b"[1, 2, 3]");
    let client = MockClient::new(canned);
    let endpoint = JsonEndpoint::get("/both");

    let composed = {
        let builder = Query::<serde_json::Value, MockClient>::request(&endpoint, &client).unwrap();
        let sent = Query::<serde_json::Value, MockClient>::send(&endpoint, &client, builder)
            .unwrap();
        Query::<serde_json::Value, MockClient>::finalise(&endpoint, sent).unwrap()
    };
    let direct = Query::<serde_json::Value, MockClient>::query(&endpoint, &client).unwrap();
    assert_eq!(direct, composed);
    assert_eq!(client.seen.borrow().len(), 2);
}

#[test]
fn queries_against_one_client_stay_independent() {
    let client = MockClient::new(response(200, b"{}"));

    let mut first = JsonEndpoint::get("/first");
    let mut first_headers = HeaderMap::new();
    first_headers.try_insert("x-first".to_string(), "1".to_string()).unwrap();
    first.headers = Ok(Some(first_headers));
    first.method = Method::Post;
    first.body = Ok(Some(("application/json".to_string(), b"{\"from\": 1}".to_vec())));

    let mut second = JsonEndpoint::get("/second");
    let mut second_headers = HeaderMap::new();
    second_headers.try_insert("x-second".to_string(), "2".to_string()).unwrap();
    second.headers = Ok(Some(second_headers));

    Query::<serde_json::Value, MockClient>::query(&first, &client).unwrap();
    Query::<serde_json::Value, MockClient>::query(&second, &client).unwrap();

    let seen = client.seen.borrow();
    assert_eq!(seen.len(), 2);

    assert_eq!(seen[0].uri, "https://api.example.test/first");
    let first_names: Vec<&str> =
        seen[0].headers.0.iter().map(|e| e.name.as_deref().unwrap()).collect();
    assert_eq!(first_names, ["x-first", "content-type"]);
    assert_eq!(seen[0].body, b"{\"from\": 1}".to_vec());

    assert_eq!(seen[1].uri, "https://api.example.test/second");
    let second_names: Vec<&str> =
        seen[1].headers.0.iter().map(|e| e.name.as_deref().unwrap()).collect();
    assert_eq!(second_names, ["x-second"]);
    assert_eq!(seen[1].body, Vec::<u8>::new());
}

#[test]
fn a_body_gets_its_content_type_header() {
    let client = MockClient::new(response(200, b"{}"));
    let mut endpoint = JsonEndpoint::get("/upload");
    endpoint.method = Method::Put;
    endpoint.body = Ok(Some(("text/plain".to_string(), b"hello".to_vec())));
    Query::<serde_json::Value, MockClient>::query(&endpoint, &client).unwrap();
    let seen = client.seen.borrow();
    assert_eq!(seen[0].method, Method::Put);
    assert_eq!(
        seen[0].headers.0,
        vec![HeaderEntry { name: Some("content-type".to_string()), value: "text/plain".to_string() }]
    );
    assert_eq!(seen[0].body, b"hello".to_vec());
}

#[test]
fn a_nameless_header_fails_with_missing_header_name() {
    let client = MockClient::new(response(200, b"{}"));
    let mut endpoint = JsonEndpoint::get("/value");
    endpoint.headers = Ok(Some(HeaderMap(vec![HeaderEntry {
        name: None,
        value: "dangling".to_string(),
    }])));
    let err = Query::<serde_json::Value, MockClient>::query(&endpoint, &client).unwrap_err();
    assert!(matches!(err.kind(), APIErrorKind::MissingHeaderName));
    assert_eq!(client.seen.borrow().len(), 0);
}

#[test]
fn a_header_error_is_lifted_into_the_header_kind() {
    let client = MockClient::new(response(200, b"{}"));
    let mut endpoint = JsonEndpoint::get("/value");
    endpoint.headers = Err(HeaderError::MissingHeader("x-need".to_string()));
    let err = Query::<serde_json::Value, MockClient>::query(&endpoint, &client).unwrap_err();
    assert!(matches!(
        err.kind(),
        APIErrorKind::Header(HeaderError::MissingHeader(ref n)) if n == "x-need"
    ));
}

#[test]
fn a_body_error_is_lifted_into_the_body_kind() {
    let client = MockClient::new(response(200, b"{}"));
    let mut endpoint = JsonEndpoint::get("/value");
    endpoint.body = Err(BodyError::InsufficientData);
    let err = Query::<serde_json::Value, MockClient>::query(&endpoint, &client).unwrap_err();
    assert!(matches!(err.kind(), APIErrorKind::Body(BodyError::InsufficientData)));
    assert_eq!(client.seen.borrow().len(), 0);
}

#[test]
fn a_content_type_no_header_may_hold_is_a_malformed_request() {
    let client = MockClient::new(response(200, b"{}"));
    let mut endpoint = JsonEndpoint::get("/value");
    endpoint.body = Ok(Some(("text/\nplain".to_string(), b"x".to_vec())));
    let err = Query::<serde_json::Value, MockClient>::query(&endpoint, &client).unwrap_err();
    assert!(matches!(
        err.kind(),
        APIErrorKind::MalformedRequest(ref t) if t == "text/\nplain"
    ));
}

#[test]
fn a_resolve_failure_is_passed_through() {
    let mut client = MockClient::new(response(200, b"{}"));
    client.fail_resolve = true;
    let endpoint = JsonEndpoint::get("/value");
    let err = Query::<serde_json::Value, MockClient>::query(&endpoint, &client).unwrap_err();
    assert!(matches!(err.kind(), APIErrorKind::Url(ref p) if p == "/value"));
}

#[test]
fn query_parameters_reach_the_wire_encoded() {
    let client = MockClient::new(response(200, b"{}"));
    let mut endpoint = JsonEndpoint::get("/search");
    let mut params = api_builder::query_params::QueryParamPairs(Vec::new());
    params.push(api_builder::query_params::QueryParamPair::new(
        "q".to_string(),
        "a b".to_string(),
    ));
    endpoint.params = Some(params);
    Query::<serde_json::Value, MockClient>::query(&endpoint, &client).unwrap();
    let seen = client.seen.borrow();
    assert_eq!(seen[0].uri, "https://api.example.test/search?q=a+b");
}

#[test]
fn a_malformed_body_fails_with_the_deserialize_kind() {
    let client = MockClient::new(response(200, b"{ not json"));
    let endpoint = JsonEndpoint::get("/value");
    let err = Query::<serde_json::Value, MockClient>::query(&endpoint, &client).unwrap_err();
    assert!(matches!(err.kind(), APIErrorKind::Body(BodyError::Deserialize)));
}
