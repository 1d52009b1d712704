//! Request-gating middleware.
//!
//! Two guards stand ahead of protected handlers. The session guard reads
//! the access-token cookie and verifies it in one step — signature and
//! expiry together. The API-key guard reads a request-header value and asks
//! the store for an active row with exactly that key. Both are purely
//! gate-or-pass: they mutate nothing and never touch refresh tokens.

use vstd::prelude::*;

use crate::crypto::jwt_decoded;
use crate::error::err_is_auth;
use crate::error::err_message;
use crate::error::Error;
use crate::models::AuthToken;
use crate::store::api_keys_unique;
use crate::store::has_active_api_key;
use crate::store::TokenStore;
use crate::tokens::decode_access_token;

verus! {

/// Gates a request on the access-token cookie: absent, undecodable and
/// expired tokens are all rejected with distinct internal reasons; a token
/// that decodes under `secret` with an expiration at or after `now` passes
/// through unchanged.
pub fn check_token_auth(cookie: Option<&String>, secret: &str, now: i64) -> (r: Result<
    AuthToken,
    Error,
>)
    requires
        now >= 0,
    ensures
        cookie is None ==> err_is_auth(r) && err_message(r) == "Missing token"@,
        cookie matches Some(t) ==> match jwt_decoded(t@, secret@) {
            None => err_is_auth(r) && err_message(r) == "Invalid token"@,
            Some(p) => if p.1 < now as nat {
                err_is_auth(r) && err_message(r) == "Token expired"@
            } else {
                r matches Ok(tok) && tok.0@ == t@
            },
        },
{
    match cookie {
        None => Err(Error::AuthenticationError("Missing token".to_owned())),
        Some(token) => match decode_access_token(token.as_str(), secret, now) {
            Ok(_) => Ok(AuthToken(token.clone())),
            Err(e) => Err(e),
        },
    }
}

/// Gates a request on the `X-Api-Key` header value: the request passes only
/// if the store holds an *active* row with exactly that key string.
pub fn api_key_auth(store: &TokenStore, api_key: Option<&String>) -> (r: Result<(), Error>)
    ensures
        api_key is None ==> err_is_auth(r) && err_message(r) == "Missing or invalid API key"@,
        api_key matches Some(k) ==> if has_active_api_key(store.api_keys@, k@) {
            r is Ok
        } else {
            err_is_auth(r) && err_message(r) == "Invalid or inactive API key"@
        },
{
    match api_key {
        None => Err(Error::AuthenticationError("Missing or invalid API key".to_owned())),
        Some(key) => {
            if store.find_active_api_key(key.as_str()) {
                Ok(())
            } else {
                Err(Error::AuthenticationError("Invalid or inactive API key".to_owned()))
            }
        },
    }
}

/// A deactivated key is dead even when the key string matches a stored row
/// exactly: with key strings unique, a row holding the key with
/// `is_active == false` rules out an active row with the same key, so the
/// API-key guard rejects the request.
pub proof fn lemma_inactive_api_key_rejected(s: Seq<crate::models::ApiKey>, k: Seq<char>, i: int)
    requires
        api_keys_unique(s),
        0 <= i < s.len(),
        s[i].api_key@ == k,
        !s[i].is_active,
    ensures
        !has_active_api_key(s, k),
{
    assert forall|j: int| 0 <= j < s.len() && (#[trigger] s[j]).api_key@ == k implies !s[j].is_active by {
        if j < i {
            assert(s[j].api_key@ != s[i].api_key@);
        } else if i < j {
            assert(s[i].api_key@ != s[j].api_key@);
        }
    }
}

} // verus!
