use api_kit::error::{IntoHttpError, UrlError};
use api_kit::metadata::{Metadata, VersionHistory};

fn meta(path: &str) -> Metadata {
    Metadata {
        method: http::Method::GET,
        auth: Vec::new(),
        path: path.to_string(),
        headers: Vec::new(),
    }
}

#[test]
fn make_url_strips_one_trailing_slash() {
    let m = meta("/v1/endpoint");

    let uri = m.make_url("https://host.example/", &vec![], &vec![]).unwrap();
    assert_eq!(uri.to_string(), "https://host.example/v1/endpoint");

    // Exactly one trailing separator is stripped, not more.
    let uri = m.make_url("https://host.example//", &vec![], &vec![]).unwrap();
    assert_eq!(uri.to_string(), "https://host.example//v1/endpoint");

    let uri = m.make_url("https://host.example", &vec![], &vec![]).unwrap();
    assert_eq!(uri.to_string(), "https://host.example/v1/endpoint");
}

#[test]
fn make_url_fills_placeholders() {
    let m = meta("/v1/rooms/{room_id}/events/{event_id}");
    let args = vec![
        ("room_id".to_string(), "abc".to_string()),
        ("event_id".to_string(), "42".to_string()),
        ("ignored".to_string(), "extra".to_string()),
    ];

    let uri = m.make_url("https://host.example", &args, &vec![]).unwrap();
    assert_eq!(uri.to_string(), "https://host.example/v1/rooms/abc/events/42");
}

#[test]
fn make_url_appends_query() {
    let m = meta("/v1/search");
    let query = vec![
        ("term".to_string(), "a b".to_string()),
        ("limit".to_string(), "10".to_string()),
    ];

    let uri = m.make_url("https://host.example", &vec![], &query).unwrap();
    assert_eq!(
        uri.to_string(),
        "https://host.example/v1/search?term=a+b&limit=10"
    );
}

#[test]
fn make_url_rejects_unfilled_placeholder() {
    let m = meta("/v1/rooms/{room_id}");

    let err = m.make_url("https://host.example", &vec![], &vec![]).unwrap_err();
    assert!(matches!(
        err,
        IntoHttpError::Url(UrlError::UnfilledField(field)) if field == "room_id"
    ));
}

#[test]
fn make_url_rejects_unclosed_placeholder() {
    let m = meta("/v1/rooms/{room_id");
    let args = vec![("room_id".to_string(), "abc".to_string())];

    let err = m.make_url("https://host.example", &args, &vec![]).unwrap_err();
    assert!(matches!(err, IntoHttpError::Url(UrlError::InvalidEndpoint)));
}

#[test]
fn make_url_rejects_invalid_uri() {
    let m = meta("/v1/endpoint");

    let err = m.make_url("https://host example", &vec![], &vec![]).unwrap_err();
    assert!(matches!(err, IntoHttpError::Http(_)));
}

#[test]
fn make_endpoint_url_uses_selected_variant() {
    let history = VersionHistory::new(
        vec![meta("/v1alpha1/endpoint")],
        vec![(1, meta("/v1/endpoint")), (2, meta("/v2/endpoint"))],
        None,
        None,
    );

    let uri = history
        .make_endpoint_url(&[1], "https://host.example/", &vec![], &vec![])
        .unwrap();
    assert_eq!(uri.to_string(), "https://host.example/v1/endpoint");

    let uri = history
        .make_endpoint_url(&[2], "https://host.example/", &vec![], &vec![])
        .unwrap();
    assert_eq!(uri.to_string(), "https://host.example/v2/endpoint");

    let uri = history
        .make_endpoint_url(&[0], "https://host.example/", &vec![], &vec![])
        .unwrap();
    assert_eq!(uri.to_string(), "https://host.example/v1alpha1/endpoint");
}

#[test]
fn make_endpoint_url_reports_removal() {
    let history = VersionHistory::new(vec![], vec![(1, meta("/v1/endpoint"))], None, Some(2));

    let err = history
        .make_endpoint_url(&[2], "https://host.example", &vec![], &vec![])
        .unwrap_err();
    assert!(matches!(err, IntoHttpError::EndpointRemoved));
}
