//! Error taxonomy of the authentication core.
//!
//! Every failure a core function can report falls into one of five classes,
//! each mapped to a stable HTTP status code. Authentication failures carry a
//! deliberately generic message so that a client cannot distinguish a wrong
//! password from an unknown username.

use vstd::prelude::*;

verus! {

/// Failure classes of the core, with the human-readable detail kept
/// server-side. The variant decides the outward status code; the message is
/// what a response body may carry.
#[derive(Debug)]
pub enum Error {
    /// Malformed input, rejected at the boundary before any store access.
    ValidationError(String),
    /// Bad credentials, or a missing, invalid or expired token.
    AuthenticationError(String),
    /// A duplicate of a value that must stay unique (username, email).
    ConflictError(String),
    /// The backing store failed or an internal limit was exceeded.
    StoreError(String),
    /// Hashing or signing failed inside a cryptographic primitive.
    InternalCryptoError(String),
}

/// The HTTP status code a given error class maps to.
pub open spec fn spec_status(e: Error) -> u16 {
    match e {
        Error::ValidationError(_) => 400,
        Error::AuthenticationError(_) => 401,
        Error::ConflictError(_) => 409,
        Error::StoreError(_) => 500,
        Error::InternalCryptoError(_) => 500,
    }
}

/// The message text carried by an error, whatever its class.
pub open spec fn spec_message(e: Error) -> Seq<char> {
    match e {
        Error::ValidationError(m) => m@,
        Error::AuthenticationError(m) => m@,
        Error::ConflictError(m) => m@,
        Error::StoreError(m) => m@,
        Error::InternalCryptoError(m) => m@,
    }
}

/// Whether a result failed with a validation error.
pub open spec fn err_is_validation<T>(r: Result<T, Error>) -> bool {
    r matches Err(e) && e is ValidationError
}

/// Whether a result failed with an authentication error.
pub open spec fn err_is_auth<T>(r: Result<T, Error>) -> bool {
    r matches Err(e) && e is AuthenticationError
}

/// The message of a failed result; empty for a success.
pub open spec fn err_message<T>(r: Result<T, Error>) -> Seq<char> {
    match r {
        Err(e) => spec_message(e),
        Ok(_) => Seq::empty(),
    }
}

impl Error {
    /// The stable status code for this error class.
    pub fn status_code(&self) -> (c: u16)
        ensures
            c == spec_status(*self),
    {
        match self {
            Error::ValidationError(_) => 400,
            Error::AuthenticationError(_) => 401,
            Error::ConflictError(_) => 409,
            Error::StoreError(_) => 500,
            Error::InternalCryptoError(_) => 500,
        }
    }

    /// The message carried by this error.
    pub fn message(&self) -> (m: &String)
        ensures
            m@ == spec_message(*self),
    {
        match self {
            Error::ValidationError(m) => m,
            Error::AuthenticationError(m) => m,
            Error::ConflictError(m) => m,
            Error::StoreError(m) => m,
            Error::InternalCryptoError(m) => m,
        }
    }
}

} // verus!
