//! The error taxonomy of the toolkit.
//!
//! Resolution and construction failures are always returned to the caller,
//! never silently defaulted; the variants that wrap an outside error carry it
//! unchanged.

use vstd::prelude::*;

verus! {

/// An error when building an outgoing HTTP request or response.
#[derive(Debug)]
#[non_exhaustive]
pub enum IntoHttpError {
    /// The versions in play only support the endpoint in an unstable
    /// fashion, but no unstable path variant is registered.
    NoUnstablePath,
    /// All versions in play agree that the endpoint was removed.
    EndpointRemoved,
    /// Required authorization data is missing.
    MissingAuth,
    /// JSON serialization failed.
    Json(serde_json::Error),
    /// Rendering the URL path template failed.
    Url(UrlError),
    /// Serializing the query string failed.
    Query(serde_urlencoded::ser::Error),
    /// A header value holds forbidden characters.
    Header(http::header::InvalidHeaderValue),
    /// Assembling the HTTP value failed, e.g. the constructed URL is no
    /// valid URI.
    Http(http::Error),
}

/// An error when converting an incoming HTTP request into a typed value.
#[derive(Debug)]
#[non_exhaustive]
pub enum FromHttpRequestError {
    /// The request payload could not be deserialized.
    Deserialize(DeserializeError),
    /// The request used another HTTP method than the endpoint declares.
    MethodMismatch {
        /// The method the endpoint metadata declares.
        expected: http::Method,
        /// The method the request actually used.
        actual: http::Method,
    },
}

/// An error when converting an incoming HTTP response into a typed value.
#[derive(Debug)]
#[non_exhaustive]
pub enum FromHttpResponseError<E> {
    /// The response payload could not be deserialized.
    Deserialize(DeserializeError),
    /// The response carried the endpoint's own error.
    EndpointError(E),
}

impl From<DeserializeError> for FromHttpRequestError {
    fn from(err: DeserializeError) -> (r: Self) {
        Self::Deserialize(err)
    }
}

impl vstd::std_specs::convert::FromSpecImpl<DeserializeError> for FromHttpRequestError {
    open spec fn obeys_from_spec() -> bool {
        true
    }

    open spec fn from_spec(err: DeserializeError) -> Self {
        Self::Deserialize(err)
    }
}

impl<E> From<DeserializeError> for FromHttpResponseError<E> {
    fn from(err: DeserializeError) -> (r: Self) {
        Self::Deserialize(err)
    }
}

impl<E> vstd::std_specs::convert::FromSpecImpl<DeserializeError> for FromHttpResponseError<E> {
    open spec fn obeys_from_spec() -> bool {
        true
    }

    open spec fn from_spec(err: DeserializeError) -> Self {
        Self::Deserialize(err)
    }
}

/// An error when deserializing a payload, query string or header.
#[derive(Debug)]
#[non_exhaustive]
pub enum DeserializeError {
    /// JSON parsing failed.
    Json(serde_json::Error),
    /// Query-string parsing failed.
    Uri(serde_urlencoded::de::Error),
    /// A header value was not convertible to a string.
    Header(http::header::ToStrError),
    /// A required header was absent.
    MissingHeader(http::HeaderName),
}

/// An error when rendering a URL path template.
#[derive(Debug, PartialEq, Eq)]
pub enum UrlError {
    /// A free-form message.
    Message(String),
    /// The top level value is of an unsupported shape.
    TopLevel,
    /// The path template is malformed, e.g. a placeholder is never closed.
    InvalidEndpoint,
    /// A path argument value is of an unsupported shape.
    ValueNotSupported,
    /// A key was looked up and not found.
    KeyNotFound(&'static str),
    /// A placeholder of the template has no matching path argument; carries
    /// the placeholder's name.
    UnfilledField(String),
}

} // verus!
