//! Bearer token authentication scheme.

use vstd::prelude::*;

use crate::auth::{
    header_value_from_str, header_value_ok, headers_have_room, hv_of, req_headers,
    set_authorization, AuthScheme,
};
use crate::error::IntoHttpError;

verus! {

/// Bearer token authentication scheme.
///
/// This authenticator adds a `Bearer` authorization header, holding the
/// token, to the request.
#[derive(Debug, Copy, Clone, Eq, PartialEq, Ord, PartialOrd, Hash, Default)]
pub struct BearerAuth;

impl AuthScheme for BearerAuth {
    open spec fn spec_scheme(&self) -> Seq<char> {
        "bearer"@
    }

    fn scheme(&self) -> (r: &'static str) {
        "bearer"
    }
}

/// The full value of a Bearer authorization header for the given token.
pub open spec fn bearer_header_value(token: Seq<char>) -> Seq<char> {
    "Bearer "@ + token
}

impl BearerAuth {
    /// Adds a Bearer authorization header holding `token` to the request:
    /// on success the request's `authorization` header holds the value and
    /// every other header is as it was. Fails with `Header`, the request
    /// untouched, if and only if the header value holds forbidden
    /// characters, and with `Http`, the headers unchanged, when the
    /// request's header map is full.
    pub fn authenticate(&self, req: &mut http::Request<bytes::BytesMut>, token: String) -> (r: Result<(), IntoHttpError>)
        ensures
            (r matches Err(e) && e is Header) <==> !header_value_ok(bearer_header_value(token@)),
            r matches Err(e) ==> e is Header || e is Http,
            r is Ok <==> header_value_ok(bearer_header_value(token@)) && headers_have_room(
                *old(req),
            ),
            r is Ok ==> req_headers(*final(req)) == req_headers(*old(req)).insert(
                "authorization"@,
                hv_of(bearer_header_value(token@)),
            ),
            r is Err ==> req_headers(*final(req)) == req_headers(*old(req)),
            (r matches Err(e) && e is Header) ==> *final(req) == *old(req),
    {
        let ghost tok = token@;
        let mut value = String::new();
        value.append("Bearer ");
        value.append(token.as_str());
        proof {
            assert(value@ =~= bearer_header_value(tok));
        }
        match header_value_from_str(value.as_str()) {
            Ok(v) => match set_authorization(req, v) {
                Ok(()) => Ok(()),
                Err(e) => Err(IntoHttpError::Http(e)),
            },
            Err(e) => Err(IntoHttpError::Header(e)),
        }
    }
}

} // verus!
