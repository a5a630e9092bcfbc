//! Tests of the error taxonomy: lifting, remapping, demotion.

use api_builder::error::APIClientError;
use api_builder::error::APIError;
use api_builder::error::APIErrorKind;
use api_builder::error::BodyError;
use api_builder::error::HeaderError;
use api_builder::error::HttpClientError;
use api_builder::wire::HeaderEntry;
use api_builder::wire::HeaderMap;
use api_builder::wire::Response;

#[derive(Debug, PartialEq, Eq, Clone)]
struct AlphaError(String);

impl APIClientError for AlphaError {
    fn message(&self) -> String {
        self.0.clone()
    }
}

#[derive(Debug, PartialEq, Eq, Clone)]
struct BetaError(String);

impl APIClientError for BetaError {
    fn message(&self) -> String {
        self.0.clone()
    }
}

impl From<AlphaError> for BetaError {
    fn from(e: AlphaError) -> BetaError {
        BetaError(e.0)
    }
}

#[test]
fn from_api_error_converts_the_client_error() {
    let kind: APIErrorKind<AlphaError> = APIErrorKind::Client(AlphaError("boom".to_string()));
    let converted: APIErrorKind<BetaError> = APIErrorKind::from_api_error(kind);
    assert!(matches!(converted, APIErrorKind::Client(BetaError(ref m)) if m == "boom"));
}

#[test]
fn from_api_error_keeps_other_kinds_unchanged() {
    let kind: APIErrorKind<AlphaError> = APIErrorKind::Body(BodyError::InsufficientData);
    let converted: APIErrorKind<BetaError> = APIErrorKind::from_api_error(kind);
    assert!(matches!(converted, APIErrorKind::Body(BodyError::InsufficientData)));

    let kind: APIErrorKind<AlphaError> = APIErrorKind::MissingHeaderName;
    let converted: APIErrorKind<BetaError> = APIErrorKind::from_api_error(kind);
    assert!(matches!(converted, APIErrorKind::MissingHeaderName));
}

#[test]
fn from_any_api_error_demotes_the_client_error_to_text() {
    let kind: APIErrorKind<AlphaError> = APIErrorKind::Client(AlphaError("lost".to_string()));
    let converted: APIErrorKind<BetaError> = APIErrorKind::from_any_api_error(kind);
    assert!(matches!(converted, APIErrorKind::Other(ref m) if m == "lost"));
}

#[test]
fn from_any_api_error_keeps_other_kinds_unchanged() {
    let kind: APIErrorKind<AlphaError> = APIErrorKind::Url("::".to_string());
    let converted: APIErrorKind<BetaError> = APIErrorKind::from_any_api_error(kind);
    assert!(matches!(converted, APIErrorKind::Url(ref u) if u == "::"));
}

#[test]
fn from_error_wraps_into_the_client_kind() {
    let kind: APIErrorKind<BetaError> = APIErrorKind::from_error(AlphaError("x".to_string()));
    assert!(matches!(kind, APIErrorKind::Client(BetaError(ref m)) if m == "x"));
}

#[test]
fn from_any_error_wraps_the_text() {
    let kind: APIErrorKind<AlphaError> = APIErrorKind::from_any_error("odd".to_string());
    assert!(matches!(kind, APIErrorKind::Other(ref m) if m == "odd"));
}

#[test]
fn a_client_error_lifts_into_the_client_kind() {
    let kind: APIErrorKind<AlphaError> = APIErrorKind::from(AlphaError("mine".to_string()));
    assert!(matches!(kind, APIErrorKind::Client(AlphaError(ref m)) if m == "mine"));
}

#[test]
fn leaf_kinds_lift_into_the_top_level_kind() {
    let kind: APIErrorKind<AlphaError> = APIErrorKind::from(BodyError::Build);
    assert!(matches!(kind, APIErrorKind::Body(BodyError::Build)));

    let kind: APIErrorKind<AlphaError> =
        APIErrorKind::from(HeaderError::MissingHeader("x-need".to_string()));
    assert!(matches!(kind, APIErrorKind::Header(HeaderError::MissingHeader(ref n)) if n == "x-need"));

    let kind: APIErrorKind<AlphaError> =
        APIErrorKind::from(HttpClientError::Backend("refused".to_string()));
    assert!(matches!(kind, APIErrorKind::HttpClient(HttpClientError::Backend(ref m)) if m == "refused"));

    let json_err = serde_json::from_slice::<serde_json::Value>(b"{").unwrap_err();
    let kind: APIErrorKind<AlphaError> = APIErrorKind::from(json_err);
    assert!(matches!(kind, APIErrorKind::Body(BodyError::SerdeJson(_))));

    let resp = Response { status: 500, headers: HeaderMap(Vec::new()), body: b"oops".to_vec() };
    let kind: APIErrorKind<AlphaError> = APIErrorKind::from(resp);
    assert!(matches!(kind, APIErrorKind::Response(ref r) if r.status == 500));
}

#[test]
fn boxed_error_round_trips_through_its_kind() {
    let err: APIError<AlphaError> = APIError::new(APIErrorKind::MissingHeaderName);
    assert!(matches!(err.kind(), APIErrorKind::MissingHeaderName));
    assert!(matches!(err.into_kind(), APIErrorKind::MissingHeaderName));
}

#[test]
fn boxed_conversions_mirror_the_kind_conversions() {
    let err: APIError<AlphaError> = APIError::new(APIErrorKind::Client(AlphaError("a".to_string())));
    let converted: APIError<BetaError> = APIError::from_api_error(err);
    assert!(matches!(converted.kind(), APIErrorKind::Client(BetaError(ref m)) if m == "a"));

    let err: APIError<AlphaError> = APIError::new(APIErrorKind::Client(AlphaError("b".to_string())));
    let converted: APIError<BetaError> = APIError::from_any_api_error(err);
    assert!(matches!(converted.kind(), APIErrorKind::Other(ref m) if m == "b"));

    let err: APIError<AlphaError> = APIError::from_any_error("c".to_string());
    assert!(matches!(err.kind(), APIErrorKind::Other(ref m) if m == "c"));
}

#[test]
fn try_insert_accepts_valid_headers() {
    let mut map = HeaderMap::new();
    assert!(map.try_insert("x-token".to_string(), "abc 123".to_string()).is_ok());
    assert_eq!(map.0.len(), 1);
    assert_eq!(map.0[0], HeaderEntry { name: Some("x-token".to_string()), value: "abc 123".to_string() });
}

#[test]
fn try_insert_refuses_an_invalid_name() {
    let mut map = HeaderMap::new();
    let err = map.try_insert("x token".to_string(), "v".to_string()).unwrap_err();
    assert!(matches!(err, HeaderError::Parse(ref t) if t == "x token"));
    assert_eq!(map.0.len(), 0);

    let err = map.try_insert("".to_string(), "v".to_string()).unwrap_err();
    assert!(matches!(err, HeaderError::Parse(ref t) if t == ""));
}

#[test]
fn try_insert_refuses_an_invalid_value() {
    let mut map = HeaderMap::new();
    let err = map.try_insert("x-token".to_string(), "bad\nvalue".to_string()).unwrap_err();
    assert!(matches!(err, HeaderError::Parse(ref t) if t == "bad\nvalue"));
    assert_eq!(map.0.len(), 0);
}
