//! Authentication and token-lifecycle core of a small REST backend.
//!
//! The crate verifies the subsystem that decides who may do what: credential
//! checking against stored salted hashes, issuance of signed access tokens and
//! opaque refresh tokens, rotation and revocation of refresh tokens, API-key
//! validation, and the request-gating middleware built on top of them. Token
//! records live in a [`store::TokenStore`] whose operations carry full
//! contracts; the cryptographic primitives (argon2, HMAC-signed JWTs, random
//! token generation) are called through a small set of trusted wrappers in
//! [`crypto`].

pub mod crypto;
pub mod decimal;
pub mod error;
pub mod flow;
pub mod middleware;
pub mod models;
pub mod query;
pub mod store;
pub mod tokens;
pub mod validation;
