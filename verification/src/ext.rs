//! Declarations of the outside types that flow through this crate's
//! signatures and fields.
//!
//! Each declaration only makes the named type known to the verifier; the
//! values stay opaque and are carried through, never inspected by verified
//! code.

use vstd::prelude::*;

verus! {

/// `http::Method`: the HTTP verb of a path variant.
#[verifier::external_type_specification]
#[verifier::external_body]
pub struct ExMethod(http::Method);

/// Relies on `http::Method`'s derived `Clone`: the clone equals the
/// original.
pub assume_specification[ <http::Method as Clone>::clone ](m: &http::Method) -> (r: http::Method)
    ensures
        r == *m,
;

/// `http::HeaderName`: the name of an extra header attached to a variant.
#[verifier::external_type_specification]
#[verifier::external_body]
pub struct ExHeaderName(http::HeaderName);

/// Relies on `http::HeaderName`'s derived `Clone`: the clone equals the
/// original.
pub assume_specification[ <http::HeaderName as Clone>::clone ](n: &http::HeaderName) -> (r: http::HeaderName)
    ensures
        r == *n,
;

/// `http::HeaderValue`: a validated header value.
#[verifier::external_type_specification]
#[verifier::external_body]
pub struct ExHeaderValue(http::HeaderValue);

/// Relies on `http::HeaderValue`'s derived `Clone`: the clone equals the
/// original.
pub assume_specification[ <http::HeaderValue as Clone>::clone ](v: &http::HeaderValue) -> (r: http::HeaderValue)
    ensures
        r == *v,
;

/// `http::Uri`: a parsed URI, returned by URL construction.
#[verifier::external_type_specification]
#[verifier::external_body]
pub struct ExUri(http::Uri);

/// `http::Error`: the error produced when a constructed URL is no valid URI.
#[verifier::external_type_specification]
#[verifier::external_body]
pub struct ExHttpError(http::Error);

/// `http::header::InvalidHeaderValue`: the error for a header value with
/// forbidden characters.
#[verifier::external_type_specification]
#[verifier::external_body]
pub struct ExInvalidHeaderValue(http::header::InvalidHeaderValue);

/// `http::header::ToStrError`: the error for a header value that is not
/// visible ASCII.
#[verifier::external_type_specification]
#[verifier::external_body]
pub struct ExToStrError(http::header::ToStrError);

/// `http::Request`: the request that an authenticator adds headers to.
#[verifier::external_type_specification]
#[verifier::external_body]
#[verifier::reject_recursive_types(T)]
pub struct ExRequest<T>(http::Request<T>);

/// `bytes::BytesMut`: the body buffer of an outgoing request.
#[verifier::external_type_specification]
#[verifier::external_body]
pub struct ExBytesMut(bytes::BytesMut);

/// `serde_json::Error`: a JSON (de)serialization error.
#[verifier::external_type_specification]
#[verifier::external_body]
pub struct ExJsonError(serde_json::Error);

/// `serde_urlencoded::ser::Error`: a query-string serialization error.
#[verifier::external_type_specification]
#[verifier::external_body]
pub struct ExQuerySerError(serde_urlencoded::ser::Error);

/// `serde::de::value::Error` (re-exported as `serde_urlencoded::de::Error`):
/// a query-string deserialization error.
#[verifier::external_type_specification]
#[verifier::external_body]
pub struct ExQueryDeError(serde::de::value::Error);

} // verus!
