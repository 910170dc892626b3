//! Authentication schemes.
//!
//! A scheme is identified by a unique string; concrete schemes build an
//! `Authorization` header value and attach it to an outgoing request.

use vstd::prelude::*;

pub mod basic;
pub mod bearer;

verus! {

/// An authentication scheme, named by a unique identifier.
pub trait AuthScheme {
    /// The scheme's identifier, for use in specifications.
    spec fn spec_scheme(&self) -> Seq<char>;

    /// Returns the unique identifier of the authentication scheme.
    fn scheme(&self) -> (r: &'static str)
        ensures
            r@ == self.spec_scheme(),
    ;
}

/// The scheme that does nothing; its identifier is empty.
impl AuthScheme for () {
    open spec fn spec_scheme(&self) -> Seq<char> {
        ""@
    }

    fn scheme(&self) -> (r: &'static str) {
        ""
    }
}

/// Whether a character is legal in a header value: horizontal tab, or any
/// character at or above the space that is not delete. (Characters beyond
/// ASCII encode to bytes that are all in range.)
pub open spec fn header_value_char_ok(c: char) -> bool {
    c == '\t' || (c as u32 >= 32 && c as u32 != 127)
}

/// Whether `http::HeaderValue` accepts a string: every character must be
/// legal in a header value.
pub open spec fn header_value_ok(value: Seq<char>) -> bool {
    forall|i: int| 0 <= i < value.len() ==> header_value_char_ok(value[i])
}

/// The header value that `http::HeaderValue::from_str` parses a string
/// into; a pure function of the characters.
pub uninterp spec fn hv_of(value: Seq<char>) -> http::HeaderValue;

/// A request's headers, as a map from lowercase header name to value (of a
/// name with several values, the first).
pub uninterp spec fn req_headers(req: http::Request<bytes::BytesMut>) -> Map<
    Seq<char>,
    http::HeaderValue,
>;

/// Whether a request's header map can take one more entry without
/// exceeding its maximum capacity; a function of the map's size and
/// capacity, so of the request value alone.
pub uninterp spec fn headers_have_room(req: http::Request<bytes::BytesMut>) -> bool;

/// Relies on `http::HeaderValue::from_str`: a header value builds if and
/// only if every byte of the string is horizontal tab, or at least 32 and
/// not 127 — over characters, exactly [`header_value_ok`] — and the parse
/// is a pure function of the characters.
#[verifier::external_body]
pub(crate) fn header_value_from_str(value: &str) -> (r: Result<http::HeaderValue, http::header::InvalidHeaderValue>)
    ensures
        r is Ok <==> header_value_ok(value@),
        r matches Ok(v) ==> v == hv_of(value@),
{
    http::HeaderValue::from_str(value)
}

/// Relies on `http::HeaderMap::try_insert`, reached through
/// `http::Request::headers_mut`: sets the request's `authorization` header
/// to the given value, replacing any previous one and leaving every other
/// header as it was. It reports failure — instead of panicking, as plain
/// `insert` would — when the header map is at its maximum capacity, and
/// leaves the headers unchanged then.
#[verifier::external_body]
pub(crate) fn set_authorization(req: &mut http::Request<bytes::BytesMut>, value: http::HeaderValue) -> (r: Result<(), http::Error>)
    ensures
        r is Ok <==> headers_have_room(*old(req)),
        r is Ok ==> req_headers(*final(req)) == req_headers(*old(req)).insert(
            "authorization"@,
            value,
        ),
        r is Err ==> req_headers(*final(req)) == req_headers(*old(req)),
{
    match req.headers_mut().try_insert(http::header::AUTHORIZATION, value) {
        Ok(_) => Ok(()),
        Err(e) => Err(http::Error::from(e)),
    }
}

} // verus!
