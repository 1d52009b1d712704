//! Plain data types of the core.
//!
//! Timestamps are carried as Unix seconds (`i64`); the surrounding
//! application converts between these and whatever calendar type it favours.
//! Record identifiers are `i32` values handed out by the store.

use vstd::prelude::*;

verus! {

/// A registered account. Only the salted hash of the password is ever
/// stored; the plaintext never reaches a record.
#[derive(Debug)]
pub struct User {
    pub id: i32,
    pub username: String,
    pub password_hash: String,
    pub email: String,
    pub phone_number: Option<String>,
    pub phone_number_verified: bool,
}

/// The claims embedded in a signed access token: the owning user id in
/// decimal string form, and the expiration as a Unix timestamp. The claims
/// are the source of truth for access-token validity.
#[derive(Debug)]
pub struct Claims {
    pub sub: String,
    pub exp: u64,
}

/// A login request body.
#[derive(Debug)]
pub struct LoginUser {
    pub username: String,
    pub password: String,
}

/// A logout request body; the user id arrives in decimal string form.
#[derive(Debug)]
pub struct LogoutUser {
    pub user_id: String,
}

/// A refresh request body. The refresh flow trusts the cookie, not this
/// field; it is kept for the transport layer's sake.
#[derive(Debug)]
pub struct RefreshUser {
    pub user_id: String,
}

/// A simple message body for success responses.
#[derive(Debug)]
pub struct ResponseMessage {
    pub message: String,
}

/// A persisted refresh-token row: opaque random token, owner, expiry.
#[derive(Debug)]
pub struct RefreshTokenRecord {
    pub id: i32,
    pub user_id: i32,
    pub token: String,
    pub expires_at: i64,
}

/// A persisted access-token row. The row exists to enforce uniqueness of the
/// token string; validity is decided by the claims inside the token itself.
#[derive(Debug)]
pub struct AccessTokenRecord {
    pub id: i32,
    pub user_id: i32,
    pub token: String,
    pub expires_at: i64,
}

/// A persisted API key for external callers. Deactivated via `is_active`
/// rather than deletion.
#[derive(Debug)]
pub struct ApiKey {
    pub id: i32,
    pub api_key: String,
    pub client_name: String,
    pub contact_email: String,
    pub is_active: bool,
    pub created_at: i64,
    pub updated_at: i64,
}

/// Input for registering a user.
#[derive(Debug)]
pub struct CreateUserFromInput {
    pub username: String,
    pub password: String,
    pub email: String,
    pub phone_number: Option<String>,
}

/// Input for creating an access-token row for a user.
#[derive(Debug)]
pub struct CreateAccessTokenFromInput {
    pub user_id: i32,
}

/// Input for creating an API key.
#[derive(Debug)]
pub struct CreateApiKey {
    pub client_name: String,
    pub contact_email: String,
}

/// Optional fields of an API-key update.
#[derive(Debug)]
pub struct UpdateApiKey {
    pub api_key: Option<String>,
    pub client_name: Option<String>,
    pub contact_email: Option<String>,
    pub is_active: Option<bool>,
}

/// A todo row, owned by a user.
#[derive(Debug)]
pub struct Todo {
    pub id: i32,
    pub user_id: i32,
    pub description: String,
    pub done: bool,
}

/// Input for creating a todo.
#[derive(Debug)]
pub struct CreateTodo {
    pub user_id: i32,
    pub description: String,
    pub done: bool,
}

/// Optional fields of a todo update.
#[derive(Debug)]
pub struct UpdateTodo {
    pub description: Option<String>,
    pub done: Option<bool>,
}

/// Optional fields of a profile update. A present `password` is hashed by
/// the query builder; the plaintext is never placed in a parameter list.
#[derive(Debug)]
pub struct UpdateUser {
    pub username: Option<String>,
    pub password: Option<String>,
    pub email: Option<String>,
    pub phone_number: Option<String>,
    pub phone_number_verified: Option<bool>,
}

/// Optional fields of a refresh-token row update.
#[derive(Debug)]
pub struct UpdateRefreshToken {
    pub token: Option<String>,
    pub expires_at: Option<i64>,
}

/// Optional fields of an access-token row update.
#[derive(Debug)]
pub struct UpdateAccessToken {
    pub token: Option<String>,
    pub expires_at: Option<i64>,
}

/// The access token a request presented, once the middleware has let the
/// request through.
#[derive(Debug)]
pub struct AuthToken(pub String);

/// A cookie the transport layer is asked to set. A cleared cookie carries an
/// empty value.
#[derive(Debug)]
pub struct SetCookie {
    pub name: String,
    pub value: String,
    pub path: String,
    pub http_only: bool,
}

impl Clone for User {
    fn clone(&self) -> (res: Self)
        ensures
            res == *self,
    {
        User {
            id: self.id,
            username: self.username.clone(),
            password_hash: self.password_hash.clone(),
            email: self.email.clone(),
            phone_number: match &self.phone_number {
                Some(p) => Some(p.clone()),
                None => None,
            },
            phone_number_verified: self.phone_number_verified,
        }
    }
}

impl Clone for Claims {
    fn clone(&self) -> (res: Self)
        ensures
            res == *self,
    {
        Claims { sub: self.sub.clone(), exp: self.exp }
    }
}

impl Clone for RefreshTokenRecord {
    fn clone(&self) -> (res: Self)
        ensures
            res == *self,
    {
        RefreshTokenRecord {
            id: self.id,
            user_id: self.user_id,
            token: self.token.clone(),
            expires_at: self.expires_at,
        }
    }
}

impl Clone for AccessTokenRecord {
    fn clone(&self) -> (res: Self)
        ensures
            res == *self,
    {
        AccessTokenRecord {
            id: self.id,
            user_id: self.user_id,
            token: self.token.clone(),
            expires_at: self.expires_at,
        }
    }
}

impl Clone for ApiKey {
    fn clone(&self) -> (res: Self)
        ensures
            res == *self,
    {
        ApiKey {
            id: self.id,
            api_key: self.api_key.clone(),
            client_name: self.client_name.clone(),
            contact_email: self.contact_email.clone(),
            is_active: self.is_active,
            created_at: self.created_at,
            updated_at: self.updated_at,
        }
    }
}

impl Clone for SetCookie {
    fn clone(&self) -> (res: Self)
        ensures
            res == *self,
    {
        SetCookie {
            name: self.name.clone(),
            value: self.value.clone(),
            path: self.path.clone(),
            http_only: self.http_only,
        }
    }
}

} // verus!
