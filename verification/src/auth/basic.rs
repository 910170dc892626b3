//! Basic authentication scheme.

use vstd::prelude::*;

use base64::Engine;

use crate::auth::{
    header_value_char_ok, header_value_from_str, header_value_ok, headers_have_room, hv_of,
    req_headers, set_authorization, AuthScheme,
};
use crate::error::IntoHttpError;

verus! {

/// Basic authentication scheme.
///
/// This authenticator adds a `Basic` authorization header, holding the
/// base64-encoded credentials, to the request.
#[derive(Debug, Copy, Clone, Eq, PartialEq, Ord, PartialOrd, Hash, Default)]
pub struct BasicAuth;

impl AuthScheme for BasicAuth {
    open spec fn spec_scheme(&self) -> Seq<char> {
        "basic"@
    }

    fn scheme(&self) -> (r: &'static str) {
        "basic"
    }
}

/// What base64's `STANDARD` engine returns for a string's bytes; the
/// encoding depends on the input characters alone.
pub uninterp spec fn base64_of(input: Seq<char>) -> Seq<char>;

/// Whether a character belongs to base64's standard alphabet, the `=`
/// padding included.
pub open spec fn base64_char(c: char) -> bool {
    ('A' <= c && c <= 'Z') || ('a' <= c && c <= 'z') || ('0' <= c && c <= '9') || c == '+' || c
        == '/' || c == '='
}

/// Relies on `base64::engine::general_purpose::STANDARD.encode`: encodes
/// the string's bytes; the output consists of the standard alphabet
/// (`A-Z a-z 0-9 + /`) and `=` padding.
#[verifier::external_body]
fn base64_encode(input: &str) -> (r: String)
    ensures
        r@ == base64_of(input@),
        forall|i: int| 0 <= i < r@.len() ==> base64_char(#[trigger] r@[i]),
{
    base64::engine::general_purpose::STANDARD.encode(input)
}

/// The credential string carried by a Basic authorization header:
/// username and password joined by a colon.
pub open spec fn basic_credentials(username: Seq<char>, password: Seq<char>) -> Seq<char> {
    username + ":"@ + password
}

/// The full value of a Basic authorization header for the given
/// credentials.
pub open spec fn basic_header_value(username: Seq<char>, password: Seq<char>) -> Seq<char> {
    "Basic "@ + base64_of(basic_credentials(username, password))
}

impl BasicAuth {
    /// Adds a Basic authorization header built from `data` to the request:
    /// on success the request's `authorization` header holds the value and
    /// every other header is as it was. The header value never holds
    /// forbidden characters — the prefix is plain text and the base64
    /// alphabet is in range — so the call succeeds whenever the request's
    /// header map has room, and fails with `Http`, the headers unchanged,
    /// when it is full.
    pub fn authenticate(&self, req: &mut http::Request<bytes::BytesMut>, data: BasicAuthData) -> (r: Result<(), IntoHttpError>)
        ensures
            header_value_ok(basic_header_value(data.username@, data.password@)),
            r is Ok <==> headers_have_room(*old(req)),
            r matches Err(e) ==> e is Http,
            r is Ok ==> req_headers(*final(req)) == req_headers(*old(req)).insert(
                "authorization"@,
                hv_of(basic_header_value(data.username@, data.password@)),
            ),
            r is Err ==> req_headers(*final(req)) == req_headers(*old(req)),
    {
        let ghost username = data.username@;
        let ghost password = data.password@;
        let mut creds = data.username;
        creds.append(":");
        creds.append(data.password.as_str());
        let encoded = base64_encode(creds.as_str());
        let mut value = String::new();
        value.append("Basic ");
        value.append(encoded.as_str());
        proof {
            assert(creds@ == basic_credentials(username, password));
            assert(value@ =~= basic_header_value(username, password));
            reveal_strlit("Basic ");
            assert forall|i: int| 0 <= i < value@.len() implies header_value_char_ok(
                value@[i],
            ) by {
                if i < 6 {
                    assert(value@[i] == "Basic "@[i]);
                } else {
                    assert(value@[i] == encoded@[i - 6]);
                    assert(base64_char(encoded@[i - 6]));
                }
            }
            assert(header_value_ok(value@));
        }
        match header_value_from_str(value.as_str()) {
            Ok(v) => match set_authorization(req, v) {
                Ok(()) => Ok(()),
                Err(e) => Err(IntoHttpError::Http(e)),
            },
            // The value is always accepted; this arm is unreachable.
            Err(e) => Err(IntoHttpError::Header(e)),
        }
    }
}

/// Basic authentication data: the username and password the header is
/// built from.
#[derive(Debug, Clone, Eq, PartialEq)]
pub struct BasicAuthData {
    /// The username.
    pub username: String,
    /// The password.
    pub password: String,
}

impl BasicAuthData {
    /// Creates new Basic authentication data.
    #[inline]
    #[must_use]
    pub fn new(username: String, password: String) -> (r: Self)
        ensures
            r.username == username,
            r.password == password,
    {
        Self { username, password }
    }
}

} // verus!
