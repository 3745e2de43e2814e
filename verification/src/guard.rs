use vstd::prelude::*;

use crate::error::Error;
use crate::text::{has_prefix, starts_with_str};

verus! {

/// Token authority handle. Declared so that verified code can carry a
/// reference to it; its internals (the signing key) stay opaque.
#[verifier::external_type_specification]
#[verifier::external_body]
pub struct ExAuthenticator(y_sweet_core::auth::Authenticator);

/// Relies on y_sweet_core::auth::Authenticator::verify_server_token: whether
/// the presented bearer token is a well-formed, unexpired server token signed
/// with this authority's key. The outcome depends on the opaque key, so
/// nothing is promised of it.
#[verifier::external_body]
fn verify_server_token(
    authority: &y_sweet_core::auth::Authenticator,
    token: &str,
    current_time_epoch_millis: u64,
) -> bool {
    authority.verify_server_token(token, current_time_epoch_millis).is_ok()
}

/// The exact header shape an administrative caller must present.
pub open spec fn bearer_prefix() -> Seq<char> {
    "Bearer "@
}

/// The header names a bearer token: it starts with exactly `"Bearer "`.
pub open spec fn is_bearer_header(h: Seq<char>) -> bool {
    has_prefix(h, bearer_prefix())
}

/// The token carried by a bearer header: everything after the prefix.
pub open spec fn bearer_token_of(h: Seq<char>) -> Seq<char> {
    h.subrange(bearer_prefix().len() as int, h.len() as int)
}

/// Splits a header value of the shape `Bearer <token>` into its token.
/// Only the exact prefix is accepted; no other casing or scheme.
pub fn strip_bearer(header: &str) -> (r: Option<&str>)
    ensures
        match r {
            Some(t) => is_bearer_header(header@) && t@ == bearer_token_of(header@),
            None => !is_bearer_header(header@),
        },
{
    proof {
        reveal_strlit("Bearer ");
    }
    let len = header.unicode_len();
    if len < 7 {
        return None;
    }
    if starts_with_str(header, "Bearer ") {
        Some(header.substring_char(7, len))
    } else {
        None
    }
}

/// Admission control for administrative endpoints.
///
/// With no token authority configured, every caller is admitted. With one
/// configured, the caller must present an `Authorization` header of the exact
/// shape `Bearer <token>`, and the token must verify as a server token at the
/// current time: a missing header is rejected as `ExpectedAuthHeader`, a
/// header without the bearer shape — or a token the authority refuses — as
/// `BadAuthHeader`.
pub fn check_server_token(
    authority: Option<&y_sweet_core::auth::Authenticator>,
    auth_header: Option<&str>,
    current_time_epoch_millis: u64,
) -> (r: Result<(), Error>)
    ensures
        authority is None ==> r == Ok::<(), Error>(()),
        authority is Some && auth_header is None ==> r == Err::<(), Error>(
            Error::ExpectedAuthHeader,
        ),
        (authority is Some && (auth_header matches Some(h) && !is_bearer_header(h@))) ==> r
            == Err::<(), Error>(Error::BadAuthHeader),
        r is Err ==> authority is Some,
        r == Err::<(), Error>(Error::ExpectedAuthHeader) ==> auth_header is None,
        r == Err::<(), Error>(Error::BadAuthHeader) ==> auth_header is Some,
        r is Err ==> r == Err::<(), Error>(Error::ExpectedAuthHeader) || r == Err::<(), Error>(
            Error::BadAuthHeader,
        ),
{
    if let Some(authority) = authority {
        let header = match auth_header {
            Some(header) => header,
            None => {
                return Err(Error::ExpectedAuthHeader);
            },
        };
        let token = match strip_bearer(header) {
            Some(token) => token,
            None => {
                return Err(Error::BadAuthHeader);
            },
        };
        if !verify_server_token(authority, token, current_time_epoch_millis) {
            return Err(Error::BadAuthHeader);
        }
    }
    Ok(())
}

} // verus!
