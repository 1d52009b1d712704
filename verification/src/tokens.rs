//! Token issuance and verification.
//!
//! Access tokens are signed claim blobs whose embedded expiration is the
//! source of truth; refresh tokens are opaque random strings; API keys are
//! UUID strings. Issuance checks the store for a collision on the literal
//! token string and retries a bounded number of times — the store's unique
//! constraint stays the real guarantee, this check is the fast path.
//!
//! Expiry policy: refresh tokens live [`REFRESH_TOKEN_TTL_SECONDS`] (seven
//! days) from issuance, and a rotation grants the same window again; access
//! tokens live [`ACCESS_TOKEN_TTL_SECONDS`] (sixty minutes).

use vstd::prelude::*;

use crate::crypto::encode_claims;
use crate::crypto::is_ascii_alphanumeric_char;
use crate::crypto::jwt_decoded;
use crate::crypto::jwt_token;
use crate::crypto::uuid_v4_hyphenated;
use crate::crypto::random_alphanumeric_token;
use crate::decimal::dec_digits;
use crate::decimal::i32_to_dec_string;
use crate::error::spec_message;
use crate::error::Error;
use crate::models::AccessTokenRecord;
use crate::models::ApiKey;
use crate::models::Claims;
use crate::models::RefreshTokenRecord;
use crate::store::access_unchanged;
use crate::store::api_keys_unchanged;
use crate::store::has_access_token;
use crate::store::has_api_key;
use crate::store::has_refresh_token;
use crate::store::refresh_unchanged;
use crate::store::store_unchanged;
use crate::store::users_unchanged;
use crate::store::TokenStore;

verus! {

/// How long an access token is valid, in seconds (sixty minutes).
pub const ACCESS_TOKEN_TTL_SECONDS: i64 = 3600;

/// How long a refresh token is valid, in seconds (seven days).
pub const REFRESH_TOKEN_TTL_SECONDS: i64 = 604800;

/// How many times issuance retries after a token-string collision before
/// failing loudly.
pub const MAX_TOKEN_ATTEMPTS: u32 = 5;

/// The timestamps this core can work with: non-negative, and far enough
/// from the numeric limit that adding a token lifetime cannot overflow.
pub open spec fn now_in_range(now: i64) -> bool {
    0 <= now && now + REFRESH_TOKEN_TTL_SECONDS <= i64::MAX
}

/// A freshly generated refresh-token string: thirty-two alphanumeric
/// characters, absent from the store.
pub open spec fn fresh_refresh_token(store: TokenStore, t: Seq<char>) -> bool {
    &&& t.len() == 32
    &&& forall|i: int| 0 <= i < t.len() ==> is_ascii_alphanumeric_char(t[i])
    &&& !has_refresh_token(store.refresh_tokens@, t)
}

/// Generates a refresh-token candidate and checks the store for a collision
/// on the literal string, regenerating on a hit; gives up after
/// [`MAX_TOKEN_ATTEMPTS`] collisions.
#[verifier::loop_isolation(false)]
pub fn generate_refresh_token(store: &TokenStore) -> (r: Option<String>)
    ensures
        r matches Some(t) ==> fresh_refresh_token(*store, t@),
        store.refresh_tokens@.len() == 0 ==> r is Some,
{
    let mut attempts: u32 = 0;
    while attempts < MAX_TOKEN_ATTEMPTS
        invariant
            attempts <= MAX_TOKEN_ATTEMPTS,
            attempts > 0 ==> store.refresh_tokens@.len() > 0,
        decreases MAX_TOKEN_ATTEMPTS - attempts,
    {
        let candidate = random_alphanumeric_token();
        if !store.refresh_token_exists(candidate.as_str()) {
            return Some(candidate);
        }
        attempts = attempts + 1;
    }
    None
}

/// Builds and signs the access-token claims for a user: subject is the
/// decimal user id, expiration is `now` plus the access-token lifetime. The
/// minted token is accepted exactly when the store holds no row with the
/// same literal string — the claims fix the token, so the one failure is a
/// collision with a stored row, surfaced as an internal error after the
/// capped retries.
#[verifier::loop_isolation(false)]
pub fn generate_access_token(user_id: i32, secret: &str, now: i64, store: &TokenStore) -> (r:
    Result<String, Error>)
    requires
        user_id >= 1,
        now_in_range(now),
    ensures
        r matches Ok(t) ==> {
            &&& t@ == jwt_token(
                dec_digits(user_id as nat),
                (now + ACCESS_TOKEN_TTL_SECONDS) as nat,
                secret@,
            )
            &&& jwt_decoded(t@, secret@) == Some(
                (dec_digits(user_id as nat), (now + ACCESS_TOKEN_TTL_SECONDS) as nat),
            )
            &&& !has_access_token(store.access_tokens@, t@)
        },
        r matches Err(e) ==> e is InternalCryptoError,
        r is Err <==> has_access_token(
            store.access_tokens@,
            jwt_token(dec_digits(user_id as nat), (now + ACCESS_TOKEN_TTL_SECONDS) as nat, secret@),
        ),
{
    let sub = i32_to_dec_string(user_id);
    let exp = (now + ACCESS_TOKEN_TTL_SECONDS) as u64;
    let claims = Claims { sub, exp };
    let mut attempts: u32 = 0;
    while attempts < MAX_TOKEN_ATTEMPTS
        invariant
            attempts <= MAX_TOKEN_ATTEMPTS,
            claims.sub@ == dec_digits(user_id as nat),
            claims.exp == (now + ACCESS_TOKEN_TTL_SECONDS) as u64,
            attempts > 0 ==> has_access_token(
                store.access_tokens@,
                jwt_token(
                    dec_digits(user_id as nat),
                    (now + ACCESS_TOKEN_TTL_SECONDS) as nat,
                    secret@,
                ),
            ),
        decreases MAX_TOKEN_ATTEMPTS - attempts,
    {
        match encode_claims(&claims, secret) {
            None => {
                return Err(
                    Error::InternalCryptoError("Failed to generate access token".to_owned()),
                );
            },
            Some(token) => {
                if !store.access_token_exists(token.as_str()) {
                    return Ok(token);
                }
            },
        }
        attempts = attempts + 1;
    }
    Err(Error::InternalCryptoError("Failed to generate a unique access token".to_owned()))
}

/// Verifies an access token in one step: the signature must check out under
/// `secret` and the embedded expiration must not lie before `now`. The two
/// conditions form a single predicate — decode success alone never admits a
/// token.
pub fn decode_access_token(token: &str, secret: &str, now: i64) -> (r: Result<Claims, Error>)
    requires
        now >= 0,
    ensures
        match jwt_decoded(token@, secret@) {
            None => r matches Err(e) && e is AuthenticationError && spec_message(e)
                == "Invalid token"@,
            Some(p) => if p.1 < now as nat {
                r matches Err(e) && e is AuthenticationError && spec_message(e)
                    == "Token expired"@
            } else {
                r matches Ok(c) && c.sub@ == p.0 && c.exp as nat == p.1
            },
        },
{
    match crate::crypto::decode_claims(token, secret) {
        None => Err(Error::AuthenticationError("Invalid token".to_owned())),
        Some((sub, exp)) => {
            if exp < now as u64 {
                Err(Error::AuthenticationError("Token expired".to_owned()))
            } else {
                Ok(Claims { sub, exp })
            }
        },
    }
}

/// Issues a refresh token for a user and persists its row: a fresh
/// thirty-two-character token expiring seven days from `now`.
pub fn create_refresh_token(store: &mut TokenStore, user_id: i32, now: i64) -> (r: Result<
    RefreshTokenRecord,
    Error,
>)
    requires
        old(store).wf(),
        user_id >= 1,
        now_in_range(now),
        old(store).next_refresh_id < i32::MAX,
    ensures
        final(store).wf(),
        users_unchanged(*old(store), *final(store)),
        access_unchanged(*old(store), *final(store)),
        api_keys_unchanged(*old(store), *final(store)),
        r matches Err(e) ==> e is InternalCryptoError && store_unchanged(
            *old(store),
            *final(store),
        ),
        old(store).refresh_tokens@.len() == 0 ==> r is Ok,
        r matches Ok(rec) ==> {
            &&& rec.id == old(store).next_refresh_id
            &&& rec.user_id == user_id
            &&& rec.expires_at == now + REFRESH_TOKEN_TTL_SECONDS
            &&& fresh_refresh_token(*old(store), rec.token@)
            &&& final(store).refresh_tokens@ == old(store).refresh_tokens@.push(rec)
            &&& final(store).next_refresh_id == old(store).next_refresh_id + 1
        },
{
    let token = match generate_refresh_token(store) {
        Some(t) => t,
        None => {
            return Err(
                Error::InternalCryptoError("Failed to generate a unique refresh token".to_owned()),
            );
        },
    };
    let expires_at = now + REFRESH_TOKEN_TTL_SECONDS;
    let token_copy = token.clone();
    let id = store.insert_refresh(user_id, token, expires_at);
    Ok(RefreshTokenRecord { id, user_id, token: token_copy, expires_at })
}

/// Issues an access token for a user and records its row, which exists to
/// back the uniqueness check. The row's expiry mirrors the claims'.
pub fn create_access_token(store: &mut TokenStore, user_id: i32, secret: &str, now: i64) -> (r:
    Result<AccessTokenRecord, Error>)
    requires
        old(store).wf(),
        user_id >= 1,
        now_in_range(now),
        old(store).next_access_id < i32::MAX,
    ensures
        final(store).wf(),
        users_unchanged(*old(store), *final(store)),
        refresh_unchanged(*old(store), *final(store)),
        api_keys_unchanged(*old(store), *final(store)),
        r matches Err(e) ==> e is InternalCryptoError && store_unchanged(
            *old(store),
            *final(store),
        ),
        r is Err <==> has_access_token(
            old(store).access_tokens@,
            jwt_token(dec_digits(user_id as nat), (now + ACCESS_TOKEN_TTL_SECONDS) as nat, secret@),
        ),
        r matches Ok(rec) ==> {
            &&& rec.id == old(store).next_access_id
            &&& rec.user_id == user_id
            &&& rec.expires_at == now + ACCESS_TOKEN_TTL_SECONDS
            &&& rec.token@ == jwt_token(
                dec_digits(user_id as nat),
                (now + ACCESS_TOKEN_TTL_SECONDS) as nat,
                secret@,
            )
            &&& jwt_decoded(rec.token@, secret@) == Some(
                (dec_digits(user_id as nat), (now + ACCESS_TOKEN_TTL_SECONDS) as nat),
            )
            &&& !has_access_token(old(store).access_tokens@, rec.token@)
            &&& final(store).access_tokens@ == old(store).access_tokens@.push(rec)
            &&& final(store).next_access_id == old(store).next_access_id + 1
        },
{
    let token = match generate_access_token(user_id, secret, now, store) {
        Ok(t) => t,
        Err(e) => {
            return Err(e);
        },
    };
    let expires_at = now + ACCESS_TOKEN_TTL_SECONDS;
    let token_copy = token.clone();
    let id = store.insert_access(user_id, token, expires_at);
    Ok(AccessTokenRecord { id, user_id, token: token_copy, expires_at })
}

/// Mints a UUID API key for a client and persists its row, active. The
/// uniqueness check is the store-level safety net the design asks for; a
/// UUID collision surfaces as a store error rather than a retry.
pub fn create_api_key(
    store: &mut TokenStore,
    client_name: String,
    contact_email: String,
    now: i64,
) -> (r: Result<ApiKey, Error>)
    requires
        old(store).wf(),
        old(store).next_api_key_id < i32::MAX,
    ensures
        final(store).wf(),
        users_unchanged(*old(store), *final(store)),
        refresh_unchanged(*old(store), *final(store)),
        access_unchanged(*old(store), *final(store)),
        r matches Err(e) ==> e is StoreError && store_unchanged(*old(store), *final(store)),
        old(store).api_keys@.len() == 0 ==> r is Ok,
        r matches Ok(rec) ==> {
            &&& rec.id == old(store).next_api_key_id
            &&& uuid_v4_hyphenated(rec.api_key@)
            &&& !has_api_key(old(store).api_keys@, rec.api_key@)
            &&& rec.client_name == client_name
            &&& rec.contact_email == contact_email
            &&& rec.is_active
            &&& rec.created_at == now
            &&& rec.updated_at == now
            &&& final(store).api_keys@ == old(store).api_keys@.push(rec)
            &&& final(store).next_api_key_id == old(store).next_api_key_id + 1
        },
{
    let key = crate::crypto::generate_api_key();
    if store.api_key_exists(key.as_str()) {
        return Err(Error::StoreError("Duplicate API key".to_owned()));
    }
    let key_copy = key.clone();
    let name_copy = client_name.clone();
    let email_copy = contact_email.clone();
    let id = store.insert_api_key(key, client_name, contact_email, true, now);
    Ok(
        ApiKey {
            id,
            api_key: key_copy,
            client_name: name_copy,
            contact_email: email_copy,
            is_active: true,
            created_at: now,
            updated_at: now,
        },
    )
}

} // verus!
