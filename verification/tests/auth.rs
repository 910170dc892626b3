use api_kit::auth::basic::{BasicAuth, BasicAuthData};
use api_kit::auth::bearer::BearerAuth;
use api_kit::auth::AuthScheme;
use api_kit::error::IntoHttpError;
use api_kit::metadata::Metadata;

fn request() -> http::Request<bytes::BytesMut> {
    http::Request::builder()
        .method(http::Method::GET)
        .uri("https://host.example/")
        .body(bytes::BytesMut::new())
        .unwrap()
}

#[test]
fn scheme_identifiers() {
    assert_eq!(BasicAuth.scheme(), "basic");
    assert_eq!(BearerAuth.scheme(), "bearer");
    assert_eq!(().scheme(), "");
}

#[test]
fn basic_auth_data_new() {
    let data = BasicAuthData::new("user".to_string(), "pass".to_string());
    assert_eq!(data.username, "user");
    assert_eq!(data.password, "pass");
}

#[test]
fn basic_auth_sets_header() {
    let mut req = request();
    let data = BasicAuthData::new("user".to_string(), "pass".to_string());

    BasicAuth.authenticate(&mut req, data).unwrap();

    let value = req.headers().get(http::header::AUTHORIZATION).unwrap();
    assert_eq!(value.to_str().unwrap(), "Basic dXNlcjpwYXNz");
}

#[test]
fn bearer_auth_sets_header() {
    let mut req = request();

    BearerAuth
        .authenticate(&mut req, "token123".to_string())
        .unwrap();

    let value = req.headers().get(http::header::AUTHORIZATION).unwrap();
    assert_eq!(value.to_str().unwrap(), "Bearer token123");
}

#[test]
fn bearer_auth_rejects_forbidden_characters() {
    let mut req = request();

    let err = BearerAuth
        .authenticate(&mut req, "bad\ntoken".to_string())
        .unwrap_err();
    assert!(matches!(err, IntoHttpError::Header(_)));
}

#[test]
fn basic_auth_accepts_any_credentials() {
    // The header value is base64 over the credentials, so even credentials
    // with control or non-ASCII characters produce a legal header.
    let mut req = request();
    let data = BasicAuthData::new("us\u{e9}r".to_string(), "p\nass".to_string());

    BasicAuth.authenticate(&mut req, data).unwrap();

    let value = req.headers().get(http::header::AUTHORIZATION).unwrap();
    assert!(value.to_str().unwrap().starts_with("Basic "));
}

#[test]
fn auth_scheme_defaults() {
    assert_eq!(BasicAuth::default(), BasicAuth);
    assert_eq!(BearerAuth::default(), BearerAuth);
}

#[test]
fn contains_auth_matches_by_identifier() {
    let m = Metadata {
        method: http::Method::GET,
        auth: vec!["bearer".to_string()],
        path: "/v1/endpoint".to_string(),
        headers: Vec::new(),
    };

    assert!(m.contains_auth(&BearerAuth));
    assert!(!m.contains_auth(&BasicAuth));
    assert!(!m.contains_auth(&()));
}
