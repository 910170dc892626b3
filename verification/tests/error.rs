use api_kit::error::{DeserializeError, FromHttpRequestError, FromHttpResponseError};

#[test]
fn deserialize_error_converts_into_request_error() {
    let name = http::HeaderName::from_static("x-expected");
    let err: FromHttpRequestError = DeserializeError::MissingHeader(name).into();
    assert!(matches!(
        err,
        FromHttpRequestError::Deserialize(DeserializeError::MissingHeader(_))
    ));
}

#[test]
fn deserialize_error_converts_into_response_error() {
    let name = http::HeaderName::from_static("x-expected");
    let err: FromHttpResponseError<()> = DeserializeError::MissingHeader(name).into();
    assert!(matches!(
        err,
        FromHttpResponseError::Deserialize(DeserializeError::MissingHeader(_))
    ));
}
