//! The session flow controller: login, refresh, logout, registration.
//!
//! Login verifies a credential, issues an access token and a refresh token,
//! persists the refresh row and hands the transport layer two cookies: the
//! access token usable application-wide, the refresh token scoped strictly
//! to the refresh endpoint. Refresh rotates a presented refresh token in
//! place — the prior value is invalid from that moment on — and issues a
//! fresh access token for the row's owner. Logout clears both cookies and
//! deletes every refresh row of the user, idempotently.
//!
//! A credential mismatch and an unknown username produce byte-for-byte the
//! same response, so a caller cannot probe which usernames exist.

use vstd::prelude::*;
use vstd::string::StringExecFns;

use crate::crypto::current_unix_time;
use crate::crypto::jwt_decoded;
use crate::crypto::jwt_token;
use crate::crypto::password_matches;
use crate::crypto::verify_password;
use crate::decimal::all_dec_digits;
use crate::decimal::dec_digits;
use crate::decimal::dec_value;
use crate::decimal::parse_i32_dec;
use crate::error::err_is_auth;
use crate::error::err_is_validation;
use crate::error::err_message;
use crate::error::spec_message;
use crate::error::Error;
use crate::models::CreateUserFromInput;
use crate::models::LoginUser;
use crate::models::LogoutUser;
use crate::models::RefreshTokenRecord;
use crate::models::ResponseMessage;
use crate::models::SetCookie;
use crate::models::User;
use crate::crypto::MAX_PASSWORD_CHARS;
use crate::store::access_unchanged;
use crate::store::api_keys_unchanged;
use crate::store::has_access_token;
use crate::store::has_email;
use crate::store::has_refresh_token;
use crate::store::has_username;
use crate::store::refresh_tokens_unique;
use crate::store::refresh_unchanged;
use crate::store::store_unchanged;
use crate::store::users_unchanged;
use crate::store::TokenStore;
use crate::tokens::create_refresh_token;
use crate::tokens::fresh_refresh_token;
use crate::tokens::generate_access_token;
use crate::tokens::generate_refresh_token;
use crate::tokens::now_in_range;
use crate::tokens::ACCESS_TOKEN_TTL_SECONDS;
use crate::tokens::REFRESH_TOKEN_TTL_SECONDS;
use crate::validation::create_user_messages;
use crate::validation::create_user_valid;
use crate::validation::handle_validation_errors;
use crate::validation::join_messages;
use crate::validation::login_user_messages;
use crate::validation::login_user_valid;

verus! {

/// What a successful login hands back: the tokens, the two cookies to set,
/// and the issuance time the expirations are relative to.
#[derive(Debug)]
pub struct LoginResponse {
    pub message: ResponseMessage,
    pub user_id: i32,
    pub access_token: String,
    pub refresh_token: String,
    pub access_cookie: SetCookie,
    pub refresh_cookie: SetCookie,
    pub issued_at: i64,
}

/// What a successful refresh hands back: the rotated tokens, the new
/// access-token cookie, and the issuance time.
#[derive(Debug)]
pub struct RefreshResponse {
    pub message: ResponseMessage,
    pub user_id: i32,
    pub access_token: String,
    pub refresh_token: String,
    pub access_cookie: SetCookie,
    pub issued_at: i64,
}

/// What a logout hands back: the two cleared cookies.
#[derive(Debug)]
pub struct LogoutResponse {
    pub message: ResponseMessage,
    pub user_id: i32,
    pub access_cookie: SetCookie,
    pub refresh_cookie: SetCookie,
}

/// Whether the users table holds an account with this username whose stored
/// hash matches this password.
pub open spec fn credentials_ok(users: Seq<User>, username: Seq<char>, password: Seq<char>) -> bool {
    exists|i: int|
        0 <= i < users.len() && (#[trigger] users[i]).username@ == username && password_matches(
            password,
            users[i].password_hash@,
        )
}

/// Everything a successful login guarantees: the credential matched some
/// stored user, the access token signs that user's id with an expiration
/// sixty minutes past `now`, a fresh refresh row expiring seven days past
/// `now` was appended, and the two cookies carry the tokens on their
/// designated paths.
pub open spec fn login_ok_post(
    pre: TokenStore,
    post: TokenStore,
    payload: LoginUser,
    secret: Seq<char>,
    now: i64,
    resp: LoginResponse,
) -> bool {
    &&& login_user_valid(payload)
    &&& credentials_ok(pre.users@, payload.username@, payload.password@)
    &&& exists|i: int|
        0 <= i < pre.users@.len() && (#[trigger] pre.users@[i]).username@ == payload.username@
            && resp.user_id == pre.users@[i].id && password_matches(
            payload.password@,
            pre.users@[i].password_hash@,
        )
    &&& resp.user_id >= 1
    &&& resp.issued_at == now
    &&& resp.access_token@ == jwt_token(
        dec_digits(resp.user_id as nat),
        (now + ACCESS_TOKEN_TTL_SECONDS) as nat,
        secret,
    )
    &&& jwt_decoded(resp.access_token@, secret) == Some(
        (dec_digits(resp.user_id as nat), (now + ACCESS_TOKEN_TTL_SECONDS) as nat),
    )
    &&& fresh_refresh_token(pre, resp.refresh_token@)
    &&& post.refresh_tokens@ == pre.refresh_tokens@.push(
        (RefreshTokenRecord {
            id: pre.next_refresh_id,
            user_id: resp.user_id,
            token: resp.refresh_token,
            expires_at: (now + REFRESH_TOKEN_TTL_SECONDS) as i64,
        }),
    )
    &&& resp.access_cookie.name@ == "access_token"@
    &&& resp.access_cookie.value == resp.access_token
    &&& resp.access_cookie.path@ == "/api"@
    &&& resp.access_cookie.http_only
    &&& resp.refresh_cookie.name@ == "refresh_token"@
    &&& resp.refresh_cookie.value == resp.refresh_token
    &&& resp.refresh_cookie.path@ == "/api/auth/refresh"@
    &&& resp.refresh_cookie.http_only
    &&& resp.message.message@ == "Login Successful"@
}

/// Everything a successful refresh guarantees: the cookie named a stored,
/// unexpired row; that row alone was rotated in place to a fresh token with
/// a full seven-day window; the prior token is no longer present; and the
/// new access token signs the row owner's id.
pub open spec fn refresh_ok_post(
    pre: TokenStore,
    post: TokenStore,
    cookie: Seq<char>,
    secret: Seq<char>,
    now: i64,
    resp: RefreshResponse,
) -> bool {
    &&& exists|i: int|
        0 <= i < pre.refresh_tokens@.len() && (#[trigger] pre.refresh_tokens@[i]).token@ == cookie
            && pre.refresh_tokens@[i].expires_at >= now && resp.user_id
            == pre.refresh_tokens@[i].user_id && post.refresh_tokens@
            == pre.refresh_tokens@.update(
            i,
            (RefreshTokenRecord {
                id: pre.refresh_tokens@[i].id,
                user_id: pre.refresh_tokens@[i].user_id,
                token: resp.refresh_token,
                expires_at: (now + REFRESH_TOKEN_TTL_SECONDS) as i64,
            }),
        )
    &&& !has_refresh_token(post.refresh_tokens@, cookie)
    &&& fresh_refresh_token(pre, resp.refresh_token@)
    &&& resp.user_id >= 1
    &&& resp.issued_at == now
    &&& resp.access_token@ == jwt_token(
        dec_digits(resp.user_id as nat),
        (now + ACCESS_TOKEN_TTL_SECONDS) as nat,
        secret,
    )
    &&& jwt_decoded(resp.access_token@, secret) == Some(
        (dec_digits(resp.user_id as nat), (now + ACCESS_TOKEN_TTL_SECONDS) as nat),
    )
    &&& resp.access_cookie.name@ == "access_token"@
    &&& resp.access_cookie.value == resp.access_token
    &&& resp.access_cookie.path@ == "/api"@
    &&& resp.access_cookie.http_only
    &&& resp.message.message@ == "Token refreshed successfully"@
}

/// The inputs on which login is *owed* success: a valid body, a credential
/// matching a stored user, headroom in the id counter, no stored
/// access-token row colliding with the very token the claims determine, and
/// no refresh rows a random draw could collide with. Outside these
/// conditions success still ordinarily arrives — a failure needs five
/// colliding draws — but only here can it be promised.
pub open spec fn login_success_owed(
    pre: TokenStore,
    payload: LoginUser,
    secret: Seq<char>,
    now: i64,
) -> bool {
    &&& login_user_valid(payload)
    &&& credentials_ok(pre.users@, payload.username@, payload.password@)
    &&& pre.next_refresh_id < i32::MAX
    &&& pre.refresh_tokens@.len() == 0
    &&& forall|i: int|
        0 <= i < pre.users@.len() && (#[trigger] pre.users@[i]).username@ == payload.username@
            ==> !has_access_token(
            pre.access_tokens@,
            jwt_token(
                dec_digits(pre.users@[i].id as nat),
                (now + ACCESS_TOKEN_TTL_SECONDS) as nat,
                secret,
            ),
        )
}

/// A well-formed logout user id: a non-empty decimal string whose value
/// fits an `i32`.
pub open spec fn logout_user_id_ok(s: Seq<char>) -> bool {
    s.len() > 0 && all_dec_digits(s) && dec_value(s) <= i32::MAX
}

/// Builds an HTTP-only cookie.
fn make_cookie(name: &str, value: String, path: &str) -> (c: SetCookie)
    ensures
        c.name@ == name@,
        c.value == value,
        c.path@ == path@,
        c.http_only,
{
    SetCookie { name: name.to_owned(), value, path: path.to_owned(), http_only: true }
}

/// Two rows carrying the same token string are the same row.
proof fn lemma_unique_refresh_index(s: Seq<RefreshTokenRecord>, t: Seq<char>, i: int, j: int)
    requires
        refresh_tokens_unique(s),
        0 <= i < s.len(),
        0 <= j < s.len(),
        s[i].token@ == t,
        s[j].token@ == t,
    ensures
        i == j,
{
    if i < j {
        assert(s[i].token@ != s[j].token@);
    } else if j < i {
        assert(s[j].token@ != s[i].token@);
    }
}

/// Login at an explicit timestamp. Validates the body, looks the user up,
/// verifies the credential, issues both tokens and persists the refresh
/// row. A wrong password and an unknown username fail identically, and on
/// the inputs of [`login_success_owed`] success is guaranteed outright.
pub fn login_at(store: &mut TokenStore, secret: &str, payload: &LoginUser, now: i64) -> (r: Result<
    LoginResponse,
    Error,
>)
    requires
        old(store).wf(),
        now_in_range(now),
    ensures
        final(store).wf(),
        users_unchanged(*old(store), *final(store)),
        access_unchanged(*old(store), *final(store)),
        api_keys_unchanged(*old(store), *final(store)),
        r is Err ==> store_unchanged(*old(store), *final(store)),
        err_is_validation(r) <==> !login_user_valid(*payload),
        err_is_validation(r) ==> err_message(r) == join_messages(login_user_messages(*payload)),
        err_is_auth(r) <==> login_user_valid(*payload) && !credentials_ok(
            old(store).users@,
            payload.username@,
            payload.password@,
        ),
        err_is_auth(r) ==> err_message(r) == "Invalid credentials"@,
        r matches Err(e) ==> (e is ValidationError || e is AuthenticationError
            || e is InternalCryptoError || e is StoreError),
        (r matches Err(e) && e is InternalCryptoError) ==> ((exists|i: int|
            0 <= i < old(store).users@.len() && (#[trigger] old(store).users@[i]).username@
                == payload.username@ && has_access_token(
                old(store).access_tokens@,
                jwt_token(
                    dec_digits(old(store).users@[i].id as nat),
                    (now + ACCESS_TOKEN_TTL_SECONDS) as nat,
                    secret@,
                ),
            )) || old(store).refresh_tokens@.len() > 0),
        login_success_owed(*old(store), *payload, secret@, now) ==> r is Ok,
        r matches Ok(resp) ==> login_ok_post(
            *old(store),
            *final(store),
            *payload,
            secret@,
            now,
            resp,
        ),
{
    match payload.validate() {
        Err(msgs) => {
            return Err(Error::ValidationError(handle_validation_errors(&msgs)));
        },
        Ok(()) => {},
    }
    let user_id: i32;
    match store.find_user_by_username(payload.username.as_str()) {
        None => {
            proof {
                assert(!credentials_ok(store.users@, payload.username@, payload.password@));
            }
            return Err(Error::AuthenticationError("Invalid credentials".to_owned()));
        },
        Some(user) => {
            user_id = user.id;
            let password_ok = verify_password(payload.password.as_str(), user.password_hash.as_str());
            proof {
                let i = choose|i: int|
                    0 <= i < store.users@.len() && *user == (#[trigger] store.users@[i])
                        && user.username@ == payload.username@;
                if password_ok {
                    assert(store.users@[i].username@ == payload.username@ && password_matches(
                        payload.password@,
                        store.users@[i].password_hash@,
                    ));
                    assert(credentials_ok(store.users@, payload.username@, payload.password@));
                    assert(store.users@[i].id == user_id);
                    assert(exists|k: int|
                        0 <= k < store.users@.len() && (#[trigger] store.users@[k]).username@
                            == payload.username@ && store.users@[k].id == user_id
                            && password_matches(
                            payload.password@,
                            store.users@[k].password_hash@,
                        ));
                } else {
                    if credentials_ok(store.users@, payload.username@, payload.password@) {
                        let j = choose|j: int|
                            0 <= j < store.users@.len() && (#[trigger] store.users@[j]).username@
                                == payload.username@ && password_matches(
                                payload.password@,
                                store.users@[j].password_hash@,
                            );
                        if i < j {
                            assert(store.users@[i].username@ != store.users@[j].username@);
                        } else if j < i {
                            assert(store.users@[j].username@ != store.users@[i].username@);
                        }
                        assert(false);
                    }
                }
            }
            if !password_ok {
                return Err(Error::AuthenticationError("Invalid credentials".to_owned()));
            }
        },
    }
    if store.next_refresh_id == i32::MAX {
        return Err(Error::StoreError("Store id space exhausted".to_owned()));
    }
    let access_token = match generate_access_token(user_id, secret, now, store) {
        Ok(t) => t,
        Err(e) => {
            proof {
                let k = choose|k: int|
                    0 <= k < store.users@.len() && (#[trigger] store.users@[k]).username@
                        == payload.username@ && store.users@[k].id == user_id && password_matches(
                        payload.password@,
                        store.users@[k].password_hash@,
                    );
                assert(has_access_token(
                    store.access_tokens@,
                    jwt_token(
                        dec_digits(store.users@[k].id as nat),
                        (now + ACCESS_TOKEN_TTL_SECONDS) as nat,
                        secret@,
                    ),
                ));
                assert(exists|i: int|
                    0 <= i < store.users@.len() && (#[trigger] store.users@[i]).username@
                        == payload.username@ && has_access_token(
                        store.access_tokens@,
                        jwt_token(
                            dec_digits(store.users@[i].id as nat),
                            (now + ACCESS_TOKEN_TTL_SECONDS) as nat,
                            secret@,
                        ),
                    ));
                if login_success_owed(*old(store), *payload, secret@, now) {
                    assert(false);
                }
            }
            return Err(e);
        },
    };
    let rec = match create_refresh_token(store, user_id, now) {
        Ok(rec) => rec,
        Err(e) => {
            return Err(e);
        },
    };
    let refresh_token = rec.token;
    let access_cookie = make_cookie("access_token", access_token.clone(), "/api");
    let refresh_cookie = make_cookie("refresh_token", refresh_token.clone(), "/api/auth/refresh");
    Ok(
        LoginResponse {
            message: ResponseMessage { message: "Login Successful".to_owned() },
            user_id,
            access_token,
            refresh_token,
            access_cookie,
            refresh_cookie,
            issued_at: now,
        },
    )
}

/// Login at the current clock reading. The issuance time is reported in the
/// response; a clock outside the supported range surfaces as a store-level
/// internal error.
pub fn login(store: &mut TokenStore, secret: &str, payload: &LoginUser) -> (r: Result<
    LoginResponse,
    Error,
>)
    requires
        old(store).wf(),
    ensures
        final(store).wf(),
        users_unchanged(*old(store), *final(store)),
        access_unchanged(*old(store), *final(store)),
        api_keys_unchanged(*old(store), *final(store)),
        r is Err ==> store_unchanged(*old(store), *final(store)),
        err_is_validation(r) ==> !login_user_valid(*payload) && err_message(r) == join_messages(
            login_user_messages(*payload),
        ),
        err_is_auth(r) ==> login_user_valid(*payload) && !credentials_ok(
            old(store).users@,
            payload.username@,
            payload.password@,
        ) && err_message(r) == "Invalid credentials"@,
        r matches Ok(resp) ==> now_in_range(resp.issued_at) && login_ok_post(
            *old(store),
            *final(store),
            *payload,
            secret@,
            resp.issued_at,
            resp,
        ),
{
    let now = current_unix_time();
    if now < 0 || now > i64::MAX - REFRESH_TOKEN_TTL_SECONDS {
        return Err(Error::StoreError("System clock out of range".to_owned()));
    }
    login_at(store, secret, payload, now)
}

/// Refresh at an explicit timestamp. A missing cookie, an unknown token and
/// an expired token are rejected with distinct internal reasons; an expired
/// row is pruned on detection. A valid token is rotated in place and a new
/// access token is issued for the row's owner.
pub fn refresh_at(
    store: &mut TokenStore,
    secret: &str,
    refresh_cookie: Option<&String>,
    now: i64,
) -> (r: Result<RefreshResponse, Error>)
    requires
        old(store).wf(),
        now_in_range(now),
    ensures
        final(store).wf(),
        users_unchanged(*old(store), *final(store)),
        access_unchanged(*old(store), *final(store)),
        api_keys_unchanged(*old(store), *final(store)),
        final(store).next_refresh_id == old(store).next_refresh_id,
        r matches Err(e) ==> (e is AuthenticationError || e is InternalCryptoError),
        refresh_cookie is None ==> err_is_auth(r) && err_message(r) == "Missing refresh token"@
            && store_unchanged(*old(store), *final(store)),
        r is Ok ==> refresh_cookie is Some,
        refresh_cookie matches Some(t) ==> {
            &&& !has_refresh_token(old(store).refresh_tokens@, t@) ==> err_is_auth(r)
                && err_message(r) == "Invalid refresh token"@ && store_unchanged(
                *old(store),
                *final(store),
            )
            &&& (exists|i: int|
                0 <= i < old(store).refresh_tokens@.len()
                    && (#[trigger] old(store).refresh_tokens@[i]).token@ == t@
                    && old(store).refresh_tokens@[i].expires_at < now) ==> err_is_auth(r)
                && err_message(r) == "Refresh token expired"@ && (exists|i: int|
                0 <= i < old(store).refresh_tokens@.len()
                    && (#[trigger] old(store).refresh_tokens@[i]).token@ == t@
                    && final(store).refresh_tokens@ == old(store).refresh_tokens@.remove(i))
                && !has_refresh_token(final(store).refresh_tokens@, t@)
            &&& ((exists|i: int|
                0 <= i < old(store).refresh_tokens@.len()
                    && (#[trigger] old(store).refresh_tokens@[i]).token@ == t@
                    && old(store).refresh_tokens@[i].expires_at >= now) && r is Err) ==> (
            r matches Err(e) && e is InternalCryptoError && store_unchanged(
                *old(store),
                *final(store),
            ))
            &&& r matches Ok(resp) ==> refresh_ok_post(
                *old(store),
                *final(store),
                t@,
                secret@,
                now,
                resp,
            )
        },
{
    let token = match refresh_cookie {
        None => {
            return Err(Error::AuthenticationError("Missing refresh token".to_owned()));
        },
        Some(t) => t,
    };
    let row = match store.find_refresh(token.as_str()) {
        None => {
            return Err(Error::AuthenticationError("Invalid refresh token".to_owned()));
        },
        Some(rec) => rec,
    };
    proof {
        let j = choose|j: int|
            0 <= j < store.refresh_tokens@.len() && row == (#[trigger] store.refresh_tokens@[j])
                && row.token@ == token@;
        assert forall|i: int|
            0 <= i < store.refresh_tokens@.len() && (#[trigger] store.refresh_tokens@[i]).token@
                == token@ implies store.refresh_tokens@[i] == row by {
            lemma_unique_refresh_index(store.refresh_tokens@, token@, i, j);
        }
    }
    if row.expires_at < now {
        store.delete_refresh_token(token.as_str());
        return Err(Error::AuthenticationError("Refresh token expired".to_owned()));
    }
    let access_token = match generate_access_token(row.user_id, secret, now, store) {
        Ok(t) => t,
        Err(e) => {
            return Err(e);
        },
    };
    let new_refresh = match generate_refresh_token(store) {
        Some(t) => t,
        None => {
            return Err(
                Error::InternalCryptoError("Failed to generate a unique refresh token".to_owned()),
            );
        },
    };
    let new_refresh_copy = new_refresh.clone();
    let rotated = store.rotate_refresh(
        token.as_str(),
        new_refresh,
        now + REFRESH_TOKEN_TTL_SECONDS,
    );
    proof {
        assert(rotated);
        let i = choose|i: int|
            0 <= i < old(store).refresh_tokens@.len()
                && (#[trigger] old(store).refresh_tokens@[i]).token@ == token@ && store
                .refresh_tokens@ == old(store).refresh_tokens@.update(
                i,
                (RefreshTokenRecord {
                    id: old(store).refresh_tokens@[i].id,
                    user_id: old(store).refresh_tokens@[i].user_id,
                    token: new_refresh_copy,
                    expires_at: (now + REFRESH_TOKEN_TTL_SECONDS) as i64,
                }),
            );
        assert(old(store).refresh_tokens@[i] == row);
    }
    let access_cookie = make_cookie("access_token", access_token.clone(), "/api");
    Ok(
        RefreshResponse {
            message: ResponseMessage { message: "Token refreshed successfully".to_owned() },
            user_id: row.user_id,
            access_token,
            refresh_token: new_refresh_copy,
            access_cookie,
            issued_at: now,
        },
    )
}

/// Refresh at the current clock reading; see [`refresh_at`].
pub fn refresh(store: &mut TokenStore, secret: &str, refresh_cookie: Option<&String>) -> (r: Result<
    RefreshResponse,
    Error,
>)
    requires
        old(store).wf(),
    ensures
        final(store).wf(),
        users_unchanged(*old(store), *final(store)),
        access_unchanged(*old(store), *final(store)),
        api_keys_unchanged(*old(store), *final(store)),
        final(store).next_refresh_id == old(store).next_refresh_id,
        refresh_cookie is None ==> err_is_auth(r) && err_message(r) == "Missing refresh token"@
            && store_unchanged(*old(store), *final(store)),
        r matches Ok(resp) ==> (refresh_cookie matches Some(t) && now_in_range(resp.issued_at)
            && refresh_ok_post(*old(store), *final(store), t@, secret@, resp.issued_at, resp)),
{
    if refresh_cookie.is_none() {
        return Err(Error::AuthenticationError("Missing refresh token".to_owned()));
    }
    let now = current_unix_time();
    if now < 0 || now > i64::MAX - REFRESH_TOKEN_TTL_SECONDS {
        return Err(Error::StoreError("System clock out of range".to_owned()));
    }
    refresh_at(store, secret, refresh_cookie, now)
}

/// Logout: parses the user id, deletes every refresh row the user owns and
/// clears both cookies. Succeeds whether or not any rows existed, so a
/// repeated logout is harmless.
pub fn logout(store: &mut TokenStore, payload: &LogoutUser) -> (r: Result<LogoutResponse, Error>)
    requires
        old(store).wf(),
    ensures
        final(store).wf(),
        users_unchanged(*old(store), *final(store)),
        access_unchanged(*old(store), *final(store)),
        api_keys_unchanged(*old(store), *final(store)),
        final(store).next_refresh_id == old(store).next_refresh_id,
        r is Ok <==> logout_user_id_ok(payload.user_id@),
        r matches Err(e) ==> e is ValidationError && spec_message(e) == "Invalid user id"@
            && store_unchanged(*old(store), *final(store)),
        r matches Ok(resp) ==> {
            &&& resp.user_id >= 0
            &&& resp.user_id as nat == dec_value(payload.user_id@)
            &&& final(store).refresh_tokens@ == old(store).refresh_tokens@.filter(
                |rec: RefreshTokenRecord| rec.user_id != resp.user_id,
            )
            &&& resp.access_cookie.name@ == "access_token"@
            &&& resp.access_cookie.value@.len() == 0
            &&& resp.access_cookie.path@ == "/api"@
            &&& resp.access_cookie.http_only
            &&& resp.refresh_cookie.name@ == "refresh_token"@
            &&& resp.refresh_cookie.value@.len() == 0
            &&& resp.refresh_cookie.path@ == "/api/auth/refresh"@
            &&& resp.refresh_cookie.http_only
            &&& resp.message.message@ == "Logout successful"@
        },
{
    let user_id = match parse_i32_dec(payload.user_id.as_str()) {
        Some(n) => n,
        None => {
            return Err(Error::ValidationError("Invalid user id".to_owned()));
        },
    };
    store.delete_refresh_for_user(user_id);
    let access_cookie = make_cookie("access_token", String::new(), "/api");
    let refresh_cookie = make_cookie("refresh_token", String::new(), "/api/auth/refresh");
    Ok(
        LogoutResponse {
            message: ResponseMessage { message: "Logout successful".to_owned() },
            user_id,
            access_cookie,
            refresh_cookie,
        },
    )
}

/// Filtering keeps every element that satisfies the predicate, so a second
/// pass changes nothing.
proof fn lemma_filter_all<A>(s: Seq<A>, pred: spec_fn(A) -> bool)
    requires
        forall|i: int| 0 <= i < s.len() ==> pred(#[trigger] s[i]),
    ensures
        s.filter(pred) == s,
    decreases s.len(),
{
    reveal(Seq::filter);
    if s.len() > 0 {
        let d = s.drop_last();
        assert(forall|i: int| 0 <= i < d.len() ==> pred(#[trigger] d[i]));
        lemma_filter_all(d, pred);
        assert(s.filter(pred) =~= s);
    } else {
        assert(s.filter(pred) =~= s);
    }
}

/// Logout is idempotent: deleting a user's refresh rows twice leaves
/// exactly what one deletion leaves.
pub proof fn lemma_logout_idempotent(s: Seq<RefreshTokenRecord>, user_id: i32)
    ensures
        s.filter(|rec: RefreshTokenRecord| rec.user_id != user_id).filter(
            |rec: RefreshTokenRecord| rec.user_id != user_id,
        ) == s.filter(|rec: RefreshTokenRecord| rec.user_id != user_id),
{
    let pred = |rec: RefreshTokenRecord| rec.user_id != user_id;
    let f = s.filter(pred);
    assert forall|i: int| 0 <= i < f.len() implies pred(#[trigger] f[i]) by {
        s.lemma_filter_pred(pred, i);
    }
    lemma_filter_all(f, pred);
}

/// Rotation is at-most-once in time: once a refresh succeeds, the token it
/// consumed is absent from the store, so a second refresh presenting the
/// same cookie meets the "invalid refresh token" case of [`refresh_at`].
pub proof fn lemma_rotation_single_use(
    pre: TokenStore,
    post: TokenStore,
    consumed: Seq<char>,
    replacement: RefreshTokenRecord,
    i: int,
)
    requires
        pre.wf(),
        0 <= i < pre.refresh_tokens@.len(),
        pre.refresh_tokens@[i].token@ == consumed,
        !has_refresh_token(pre.refresh_tokens@, replacement.token@),
        post.refresh_tokens@ == pre.refresh_tokens@.update(i, replacement),
    ensures
        !has_refresh_token(post.refresh_tokens@, consumed),
{
    let o = pre.refresh_tokens@;
    let f = post.refresh_tokens@;
    assert forall|k: int| 0 <= k < f.len() implies (#[trigger] f[k]).token@ != consumed by {
        if k == i {
            assert(f[k] == replacement);
            assert(o[i].token@ == consumed);
        } else {
            assert(f[k] == o[k]);
            if o[k].token@ == consumed {
                lemma_unique_refresh_index(o, consumed, k, i);
            }
        }
    }
}

/// Registers a user: validates the body, rejects a duplicate username or
/// email, hashes the password and persists the record. Only the hash is
/// stored, never the plaintext. On a valid, conflict-free body whose
/// password argon2 accepts, success is guaranteed.
pub fn register_user(store: &mut TokenStore, input: &CreateUserFromInput) -> (r: Result<
    User,
    Error,
>)
    requires
        old(store).wf(),
        old(store).next_user_id < i32::MAX,
    ensures
        final(store).wf(),
        refresh_unchanged(*old(store), *final(store)),
        access_unchanged(*old(store), *final(store)),
        api_keys_unchanged(*old(store), *final(store)),
        r is Err ==> store_unchanged(*old(store), *final(store)),
        err_is_validation(r) <==> !create_user_valid(*input),
        err_is_validation(r) ==> err_message(r) == join_messages(create_user_messages(*input)),
        (r matches Err(e) && e is ConflictError) <==> create_user_valid(*input) && (has_username(
            old(store).users@,
            input.username@,
        ) || has_email(old(store).users@, input.email@)),
        r matches Err(e) ==> (e is ValidationError || e is ConflictError
            || e is InternalCryptoError),
        (r matches Err(e) && e is InternalCryptoError) ==> input.password@.len()
            > MAX_PASSWORD_CHARS,
        (create_user_valid(*input) && !has_username(old(store).users@, input.username@)
            && !has_email(old(store).users@, input.email@) && input.password@.len()
            <= MAX_PASSWORD_CHARS) ==> r is Ok,
        r matches Ok(u) ==> {
            &&& create_user_valid(*input)
            &&& !has_username(old(store).users@, input.username@)
            &&& !has_email(old(store).users@, input.email@)
            &&& u.id == old(store).next_user_id
            &&& u.username == input.username
            &&& password_matches(input.password@, u.password_hash@)
            &&& u.email == input.email
            &&& u.phone_number == input.phone_number
            &&& !u.phone_number_verified
            &&& final(store).users@ == old(store).users@.push(u)
            &&& final(store).next_user_id == old(store).next_user_id + 1
        },
{
    match input.validate() {
        Err(msgs) => {
            return Err(Error::ValidationError(handle_validation_errors(&msgs)));
        },
        Ok(()) => {},
    }
    if store.username_taken(input.username.as_str()) || store.email_taken(input.email.as_str()) {
        return Err(Error::ConflictError("Username or email already exists".to_owned()));
    }
    let password_hash = match crate::crypto::hash_password(input.password.as_str()) {
        Some(h) => h,
        None => {
            return Err(Error::InternalCryptoError("Error hashing password".to_owned()));
        },
    };
    let username = input.username.clone();
    let email = input.email.clone();
    let phone_number = match &input.phone_number {
        Some(p) => Some(p.clone()),
        None => None,
    };
    let hash_copy = password_hash.clone();
    let username_copy = username.clone();
    let email_copy = email.clone();
    let phone_copy = match &phone_number {
        Some(p) => Some(p.clone()),
        None => None,
    };
    let id = store.insert_user(username, password_hash, email, phone_number);
    Ok(
        User {
            id,
            username: username_copy,
            password_hash: hash_copy,
            email: email_copy,
            phone_number: phone_copy,
            phone_number_verified: false,
        },
    )
}

} // verus!
