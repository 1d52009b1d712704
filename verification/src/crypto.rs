//! Trusted wrappers around the cryptographic primitives.
//!
//! Everything the core takes on trust lives here: password hashing and
//! verification (argon2), signing and decoding of access tokens
//! (jsonwebtoken), random token material (rand, uuid) and the process clock
//! (chrono). Each wrapper states no more than the wrapped crate's
//! documentation promises; results that are functions of the arguments alone
//! are given names ([`password_matches`], [`jwt_token`], [`jwt_decoded`]) so
//! that verified callers can speak about them precisely.

use vstd::prelude::*;

use crate::models::Claims;
use argon2::password_hash::PasswordHash;
use argon2::password_hash::SaltString;
use argon2::Argon2;
use argon2::PasswordHasher;
use argon2::PasswordVerifier;
use rand::Rng;

verus! {

/// Whether a plaintext password matches a PHC-format salted hash, as decided
/// by argon2's verifier: the hash string embeds its salt and parameters, so
/// the outcome is a function of the two strings alone. A malformed hash
/// matches nothing.
pub uninterp spec fn password_matches(password: Seq<char>, hash: Seq<char>) -> bool;

/// The signed compact token that jsonwebtoken's `encode` produces for claims
/// `{sub, exp}` under an HS256 header and the given secret; the encoding is
/// deterministic in its inputs.
pub uninterp spec fn jwt_token(sub: Seq<char>, exp: nat, secret: Seq<char>) -> Seq<char>;

/// The claims that jsonwebtoken's `decode` recovers from a compact token
/// under the given secret, with the expiry left for the caller to check:
/// `None` when the token is structurally invalid, carries a different
/// signature or algorithm, or lacks the expected claims.
pub uninterp spec fn jwt_decoded(token: Seq<char>, secret: Seq<char>) -> Option<(Seq<char>, nat)>;

/// Whether `c` is an ASCII letter or digit.
pub open spec fn is_ascii_alphanumeric_char(c: char) -> bool {
    (48 <= c as u32 <= 57) || (65 <= c as u32 <= 90) || (97 <= c as u32 <= 122)
}

/// Whether `c` is a lowercase hexadecimal digit.
pub open spec fn is_lower_hex_digit(c: char) -> bool {
    (48 <= c as u32 <= 57) || (97 <= c as u32 <= 102)
}

/// The canonical hyphenated form of a version-4 UUID: thirty-six characters
/// with hyphens at positions 8, 13, 18 and 23 and lowercase hex digits
/// elsewhere, the version nibble four, and an RFC variant nibble.
pub open spec fn uuid_v4_hyphenated(s: Seq<char>) -> bool {
    &&& s.len() == 36
    &&& s[8] == '-' && s[13] == '-' && s[18] == '-' && s[23] == '-'
    &&& forall|i: int|
        0 <= i < 36 && i != 8 && i != 13 && i != 18 && i != 23 ==> is_lower_hex_digit(
            #[trigger] s[i],
        )
    &&& s[14] == '4'
    &&& (s[19] == '8' || s[19] == '9' || s[19] == 'a' || s[19] == 'b')
}

/// The longest password, in characters, for which hashing is promised to
/// succeed: UTF-8 spends at most four bytes per character, so a password of
/// at most this many characters stays under argon2's four-gigabyte input
/// limit, the one condition its hashing rejects.
pub const MAX_PASSWORD_CHARS: usize = 0x3FFF_FFFF;

/// Relies on argon2's `PasswordHash::new` and `verify_password`: parsing and
/// re-hashing are deterministic in the password and the hash string, and a
/// hash that does not parse verifies as a mismatch.
#[verifier::external_body]
pub fn verify_password(password: &str, hash: &str) -> (r: bool)
    ensures
        r == password_matches(password@, hash@),
{
    match PasswordHash::new(hash) {
        Ok(parsed) => Argon2::default().verify_password(password.as_bytes(), &parsed).is_ok(),
        Err(_) => false,
    }
}

/// Relies on argon2's `hash_password` with a freshly generated salt: the
/// produced PHC string embeds that salt and the default parameters, and
/// verifying the same password against it succeeds. With a generated salt
/// the only input argon2 rejects is a password over its four-gigabyte
/// limit, so hashing an in-range password always yields a hash.
#[verifier::external_body]
pub fn hash_password(password: &str) -> (r: Option<String>)
    ensures
        r matches Some(h) ==> password_matches(password@, h@),
        password@.len() <= MAX_PASSWORD_CHARS ==> r is Some,
{
    let salt = SaltString::generate(&mut rand::thread_rng());
    match Argon2::default().hash_password(password.as_bytes(), &salt) {
        Ok(h) => Some(h.to_string()),
        Err(_) => None,
    }
}

/// Relies on jsonwebtoken's `encode` with the default (HS256) header: the
/// token is a deterministic function of the claims and the secret, and
/// decoding it with the same secret recovers exactly the claims that went
/// in. For the HMAC family signing cannot fail, so a token is always
/// produced.
#[verifier::external_body]
pub(crate) fn encode_claims(claims: &Claims, secret: &str) -> (r: Option<String>)
    ensures
        r is Some,
        r matches Some(t) ==> t@ == jwt_token(claims.sub@, claims.exp as nat, secret@),
        r matches Some(t) ==> jwt_decoded(t@, secret@) == Some((claims.sub@, claims.exp as nat)),
{
    let mut claims_json = serde_json::Map::new();
    claims_json.insert("sub".to_string(), serde_json::Value::String(claims.sub.clone()));
    claims_json.insert("exp".to_string(), serde_json::Value::from(claims.exp));
    let key = jsonwebtoken::EncodingKey::from_secret(secret.as_bytes());
    let header = jsonwebtoken::Header::default();
    jsonwebtoken::encode(&header, &serde_json::Value::Object(claims_json), &key).ok()
}

/// Relies on jsonwebtoken's `decode` restricted to HS256, with its own
/// expiry validation switched off so that the outcome depends on the token
/// and the secret alone; the caller checks expiry itself.
#[verifier::external_body]
pub(crate) fn decode_claims(token: &str, secret: &str) -> (r: Option<(String, u64)>)
    ensures
        match r {
            Some(p) => jwt_decoded(token@, secret@) == Some((p.0@, p.1 as nat)),
            None => jwt_decoded(token@, secret@) is None,
        },
{
    let mut validation = jsonwebtoken::Validation::new(jsonwebtoken::Algorithm::HS256);
    validation.validate_exp = false;
    let key = jsonwebtoken::DecodingKey::from_secret(secret.as_bytes());
    match jsonwebtoken::decode::<serde_json::Value>(token, &key, &validation) {
        Ok(data) => match (data.claims.get("sub"), data.claims.get("exp")) {
            (Some(serde_json::Value::String(s)), Some(e)) => match e.as_u64() {
                Some(exp) => Some((s.clone(), exp)),
                None => None,
            },
            _ => None,
        },
        Err(_) => None,
    }
}

/// Relies on rand's `Alphanumeric` distribution: thirty-two characters drawn
/// from ASCII letters and digits. Nothing more is promised of a random
/// value.
#[verifier::external_body]
pub(crate) fn random_alphanumeric_token() -> (r: String)
    ensures
        r@.len() == 32,
        forall|i: int| 0 <= i < r@.len() ==> is_ascii_alphanumeric_char(r@[i]),
{
    rand::thread_rng().sample_iter(&rand::distributions::Alphanumeric).take(32).map(
        char::from,
    ).collect()
}

/// Relies on uuid's `new_v4` and its hyphenated display form: a random
/// version-4 UUID printed in canonical shape — hyphens at the four fixed
/// positions, lowercase hex digits elsewhere, version nibble four, RFC
/// variant nibble.
#[verifier::external_body]
pub fn generate_api_key() -> (r: String)
    ensures
        uuid_v4_hyphenated(r@),
{
    uuid::Uuid::new_v4().to_string()
}

/// Relies on chrono's `Utc::now`: the current Unix timestamp in seconds.
/// Nothing is promised of the clock's reading.
#[verifier::external_body]
pub(crate) fn current_unix_time() -> i64 {
    chrono::Utc::now().timestamp()
}

} // verus!
