use todos_web_api::error::Error;
use todos_web_api::flow::{login_at, logout, refresh_at, register_user};
use todos_web_api::middleware::{api_key_auth, check_token_auth};
use todos_web_api::models::{CreateUserFromInput, LoginUser, LogoutUser};
use todos_web_api::store::TokenStore;
use todos_web_api::tokens::{create_api_key, decode_access_token};

const SECRET: &str = "test-signing-secret";
const NOW: i64 = 1_700_000_000;

fn store_with_user(username: &str, password: &str) -> (TokenStore, i32) {
    let mut store = TokenStore::new();
    let input = CreateUserFromInput {
        username: username.to_string(),
        password: password.to_string(),
        email: format!("{}@example.com", username),
        phone_number: Some("555-0100".to_string()),
    };
    let user = register_user(&mut store, &input).expect("registration should succeed");
    (store, user.id)
}

#[test]
fn login_success_sets_cookies_and_inserts_refresh_row() {
    let (mut store, user_id) = store_with_user("alice", "correct");
    let payload = LoginUser {
        username: "alice".to_string(),
        password: "correct".to_string(),
    };
    let resp = login_at(&mut store, SECRET, &payload, NOW).expect("login should succeed");
    assert_eq!(resp.user_id, user_id);
    assert_eq!(resp.message.message, "Login Successful");
    assert_eq!(resp.access_cookie.name, "access_token");
    assert_eq!(resp.access_cookie.value, resp.access_token);
    assert_eq!(resp.access_cookie.path, "/api");
    assert!(resp.access_cookie.http_only);
    assert_eq!(resp.refresh_cookie.name, "refresh_token");
    assert_eq!(resp.refresh_cookie.value, resp.refresh_token);
    assert_eq!(resp.refresh_cookie.path, "/api/auth/refresh");
    assert!(resp.refresh_cookie.http_only);
    let row = store
        .find_refresh(&resp.refresh_token)
        .expect("refresh row should be stored");
    assert_eq!(row.user_id, user_id);
    assert_eq!(row.expires_at, NOW + 7 * 24 * 3600);
    assert_eq!(resp.refresh_token.len(), 32);
}

#[test]
fn login_access_token_round_trips_subject_and_expiry() {
    let (mut store, user_id) = store_with_user("bob", "hunter2");
    let payload = LoginUser {
        username: "bob".to_string(),
        password: "hunter2".to_string(),
    };
    let resp = login_at(&mut store, SECRET, &payload, NOW).expect("login should succeed");
    let claims = decode_access_token(&resp.access_token, SECRET, NOW)
        .expect("freshly issued token should decode");
    assert_eq!(claims.sub, user_id.to_string());
    assert_eq!(claims.exp, (NOW + 3600) as u64);
}

#[test]
fn login_rejects_wrong_password_and_unknown_user_identically() {
    let (mut store, _) = store_with_user("carol", "secret-pw");
    let wrong_password = LoginUser {
        username: "carol".to_string(),
        password: "not-the-password".to_string(),
    };
    let unknown_user = LoginUser {
        username: "nobody".to_string(),
        password: "secret-pw".to_string(),
    };
    let e1 = login_at(&mut store, SECRET, &wrong_password, NOW).unwrap_err();
    let e2 = login_at(&mut store, SECRET, &unknown_user, NOW).unwrap_err();
    assert!(matches!(e1, Error::AuthenticationError(_)));
    assert!(matches!(e2, Error::AuthenticationError(_)));
    assert_eq!(e1.status_code(), 401);
    assert_eq!(e2.status_code(), 401);
    assert_eq!(e1.message(), e2.message());
    assert_eq!(e1.message(), "Invalid credentials");
}

#[test]
fn login_rejects_empty_fields_with_field_messages() {
    let mut store = TokenStore::new();
    let payload = LoginUser {
        username: String::new(),
        password: String::new(),
    };
    let e = login_at(&mut store, SECRET, &payload, NOW).unwrap_err();
    assert!(matches!(e, Error::ValidationError(_)));
    assert_eq!(e.status_code(), 400);
    assert_eq!(
        e.message(),
        "username: Username cannot be empty., password: Password cannot be empty."
    );
}

#[test]
fn expired_access_token_is_rejected_even_with_valid_signature() {
    let (mut store, _) = store_with_user("dave", "pw-dave");
    let payload = LoginUser {
        username: "dave".to_string(),
        password: "pw-dave".to_string(),
    };
    let resp = login_at(&mut store, SECRET, &payload, NOW).expect("login should succeed");
    // At the embedded expiration instant the token still passes.
    let just_before = NOW + 3600;
    let ok = check_token_auth(Some(&resp.access_token), SECRET, just_before)
        .expect("token should still be valid at its expiration instant");
    assert_eq!(ok.0, resp.access_token);
    // One second past it the same token is refused.
    let just_after = NOW + 3601;
    let e = check_token_auth(Some(&resp.access_token), SECRET, just_after).unwrap_err();
    assert!(matches!(e, Error::AuthenticationError(_)));
    assert_eq!(e.message(), "Token expired");
}

#[test]
fn token_auth_rejects_missing_and_garbage_tokens() {
    let e = check_token_auth(None, SECRET, NOW).unwrap_err();
    assert_eq!(e.message(), "Missing token");
    let garbage = "not.a.jwt".to_string();
    let e = check_token_auth(Some(&garbage), SECRET, NOW).unwrap_err();
    assert_eq!(e.message(), "Invalid token");
    assert_eq!(e.status_code(), 401);
}

#[test]
fn token_signed_with_other_secret_is_rejected() {
    let (mut store, _) = store_with_user("erin", "pw-erin");
    let payload = LoginUser {
        username: "erin".to_string(),
        password: "pw-erin".to_string(),
    };
    let resp = login_at(&mut store, SECRET, &payload, NOW).expect("login should succeed");
    let e = check_token_auth(Some(&resp.access_token), "another-secret", NOW).unwrap_err();
    assert_eq!(e.message(), "Invalid token");
}

#[test]
fn refresh_rotates_token_and_prior_value_is_single_use() {
    let (mut store, user_id) = store_with_user("frank", "pw-frank");
    let payload = LoginUser {
        username: "frank".to_string(),
        password: "pw-frank".to_string(),
    };
    let login_resp = login_at(&mut store, SECRET, &payload, NOW).expect("login should succeed");
    let old_token = login_resp.refresh_token.clone();

    let later = NOW + 1000;
    let refresh_resp =
        refresh_at(&mut store, SECRET, Some(&old_token), later).expect("refresh should succeed");
    assert_eq!(refresh_resp.user_id, user_id);
    assert_eq!(refresh_resp.message.message, "Token refreshed successfully");
    assert_ne!(refresh_resp.refresh_token, old_token);
    assert_eq!(refresh_resp.refresh_token.len(), 32);

    // The rotated row carries the new token and a fresh seven-day window.
    let row = store
        .find_refresh(&refresh_resp.refresh_token)
        .expect("rotated row should be stored");
    assert_eq!(row.user_id, user_id);
    assert_eq!(row.expires_at, later + 7 * 24 * 3600);

    // The prior value must be rejected by a subsequent refresh.
    let e = refresh_at(&mut store, SECRET, Some(&old_token), later + 1).unwrap_err();
    assert!(matches!(e, Error::AuthenticationError(_)));
    assert_eq!(e.message(), "Invalid refresh token");

    // The new access token decodes to the same subject.
    let claims = decode_access_token(&refresh_resp.access_token, SECRET, later)
        .expect("rotated access token should decode");
    assert_eq!(claims.sub, user_id.to_string());
    assert_eq!(claims.exp, (later + 3600) as u64);
}

#[test]
fn refresh_with_unknown_cookie_is_rejected() {
    let (mut store, _) = store_with_user("grace", "pw-grace");
    let stranger = "AAAAAAAAAAAAAAAAAAAAAAAAAAAAAAAA".to_string();
    let e = refresh_at(&mut store, SECRET, Some(&stranger), NOW).unwrap_err();
    assert!(matches!(e, Error::AuthenticationError(_)));
    assert_eq!(e.message(), "Invalid refresh token");
    assert_eq!(e.status_code(), 401);
}

#[test]
fn refresh_without_cookie_is_rejected() {
    let mut store = TokenStore::new();
    let e = refresh_at(&mut store, SECRET, None, NOW).unwrap_err();
    assert_eq!(e.message(), "Missing refresh token");
    assert_eq!(e.status_code(), 401);
}

#[test]
fn refresh_with_expired_token_is_rejected_and_row_pruned() {
    let (mut store, user_id) = store_with_user("heidi", "pw-heidi");
    let stale = "BBBBBBBBBBBBBBBBBBBBBBBBBBBBBBBB".to_string();
    store.insert_refresh(user_id, stale.clone(), NOW - 1);
    let e = refresh_at(&mut store, SECRET, Some(&stale), NOW).unwrap_err();
    assert!(matches!(e, Error::AuthenticationError(_)));
    assert_eq!(e.message(), "Refresh token expired");
    assert!(store.find_refresh(&stale).is_none());
}

#[test]
fn logout_deletes_only_that_users_rows_and_clears_cookies() {
    let mut store = TokenStore::new();
    let t42a = "CCCCCCCCCCCCCCCCCCCCCCCCCCCCCCCC".to_string();
    let t42b = "DDDDDDDDDDDDDDDDDDDDDDDDDDDDDDDD".to_string();
    let t7 = "EEEEEEEEEEEEEEEEEEEEEEEEEEEEEEEE".to_string();
    store.insert_refresh(42, t42a.clone(), NOW + 1000);
    store.insert_refresh(7, t7.clone(), NOW + 1000);
    store.insert_refresh(42, t42b.clone(), NOW + 2000);

    let payload = LogoutUser {
        user_id: "42".to_string(),
    };
    let resp = logout(&mut store, &payload).expect("logout should succeed");
    assert_eq!(resp.user_id, 42);
    assert_eq!(resp.message.message, "Logout successful");
    assert_eq!(resp.access_cookie.name, "access_token");
    assert_eq!(resp.access_cookie.value, "");
    assert_eq!(resp.refresh_cookie.name, "refresh_token");
    assert_eq!(resp.refresh_cookie.value, "");
    assert!(store.find_refresh(&t42a).is_none());
    assert!(store.find_refresh(&t42b).is_none());
    assert!(store.find_refresh(&t7).is_some());

    // Logging out again, with no rows left for the user, still succeeds.
    let again = logout(&mut store, &payload).expect("repeated logout should succeed");
    assert_eq!(again.user_id, 42);
    assert!(store.find_refresh(&t7).is_some());
}

#[test]
fn logout_with_malformed_user_id_is_a_validation_error() {
    let mut store = TokenStore::new();
    for bad in ["", "abc", "12a", "-1", "2147483648"] {
        let payload = LogoutUser {
            user_id: bad.to_string(),
        };
        let e = logout(&mut store, &payload).unwrap_err();
        assert!(matches!(e, Error::ValidationError(_)), "input {:?}", bad);
        assert_eq!(e.message(), "Invalid user id");
    }
}

#[test]
fn inactive_api_key_is_rejected_even_on_exact_match() {
    let mut store = TokenStore::new();
    let key = "0f0e0d0c-0b0a-0908-0706-050403020100".to_string();
    store.insert_api_key(
        key.clone(),
        "acme".to_string(),
        "ops@acme.example".to_string(),
        false,
        NOW,
    );
    let e = api_key_auth(&store, Some(&key)).unwrap_err();
    assert!(matches!(e, Error::AuthenticationError(_)));
    assert_eq!(e.message(), "Invalid or inactive API key");

    // Reactivating the very same row lets the same key through.
    assert!(store.set_api_key_active(&key, true, NOW + 5));
    assert!(api_key_auth(&store, Some(&key)).is_ok());
}

#[test]
fn api_key_auth_rejects_missing_and_unknown_keys() {
    let store = TokenStore::new();
    let e = api_key_auth(&store, None).unwrap_err();
    assert_eq!(e.message(), "Missing or invalid API key");
    let unknown = "11111111-2222-3333-4444-555555555555".to_string();
    let e = api_key_auth(&store, Some(&unknown)).unwrap_err();
    assert_eq!(e.message(), "Invalid or inactive API key");
}

#[test]
fn created_api_key_is_active_and_validates() {
    let mut store = TokenStore::new();
    let rec = create_api_key(
        &mut store,
        "acme".to_string(),
        "ops@acme.example".to_string(),
        NOW,
    )
    .expect("creation should succeed");
    assert_eq!(rec.api_key.len(), 36);
    assert!(rec.is_active);
    assert_eq!(rec.client_name, "acme");
    assert_eq!(rec.created_at, NOW);
    assert!(api_key_auth(&store, Some(&rec.api_key)).is_ok());
}

#[test]
fn registration_hashes_password_and_rejects_duplicates() {
    let mut store = TokenStore::new();
    let input = CreateUserFromInput {
        username: "ivan".to_string(),
        password: "pw-ivan".to_string(),
        email: "ivan@example.com".to_string(),
        phone_number: Some("555-0101".to_string()),
    };
    let user = register_user(&mut store, &input).expect("registration should succeed");
    assert_eq!(user.id, 1);
    assert_ne!(user.password_hash, "pw-ivan");
    assert!(!user.phone_number_verified);

    let same_name = CreateUserFromInput {
        username: "ivan".to_string(),
        password: "other".to_string(),
        email: "ivan2@example.com".to_string(),
        phone_number: Some("555-0102".to_string()),
    };
    let e = register_user(&mut store, &same_name).unwrap_err();
    assert!(matches!(e, Error::ConflictError(_)));
    assert_eq!(e.status_code(), 409);

    let same_email = CreateUserFromInput {
        username: "ivan2".to_string(),
        password: "other".to_string(),
        email: "ivan@example.com".to_string(),
        phone_number: Some("555-0103".to_string()),
    };
    let e = register_user(&mut store, &same_email).unwrap_err();
    assert!(matches!(e, Error::ConflictError(_)));
}

#[test]
fn registration_requires_all_fields() {
    let mut store = TokenStore::new();
    let input = CreateUserFromInput {
        username: String::new(),
        password: String::new(),
        email: String::new(),
        phone_number: None,
    };
    let e = register_user(&mut store, &input).unwrap_err();
    assert!(matches!(e, Error::ValidationError(_)));
    assert_eq!(
        e.message(),
        "username: Username cannot be empty., email: Email cannot be empty., \
         password: Password cannot be empty., phone_number: Phone number cannot be empty."
    );
}
