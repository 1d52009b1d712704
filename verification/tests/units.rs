use todos_web_api::crypto::{generate_api_key, hash_password, verify_password};
use todos_web_api::decimal::{i32_to_dec_string, i64_to_dec_string, parse_i32_dec, u64_to_dec_string};
use todos_web_api::error::Error;
use todos_web_api::models::{
    CreateAccessTokenFromInput, CreateApiKey, CreateTodo, LoginUser, LogoutUser, UpdateApiKey,
    UpdateRefreshToken, UpdateTodo, UpdateUser,
};
use todos_web_api::query::{
    access_tokens_query_builder, api_keys_update_query_builder, bool_to_string,
    build_update_query_string, refresh_tokens_query_builder, users_update_query_builder,
};
use todos_web_api::store::TokenStore;
use todos_web_api::tokens::{
    create_access_token, create_refresh_token, decode_access_token, generate_access_token,
    generate_refresh_token,
};
use todos_web_api::validation::handle_validation_errors;

const SECRET: &str = "unit-test-secret";
const NOW: i64 = 1_600_000_000;

#[test]
fn decimal_strings_render_exactly() {
    assert_eq!(u64_to_dec_string(0), "0");
    assert_eq!(u64_to_dec_string(7), "7");
    assert_eq!(u64_to_dec_string(42), "42");
    assert_eq!(u64_to_dec_string(1023), "1023");
    assert_eq!(i32_to_dec_string(2147483647), "2147483647");
    assert_eq!(i64_to_dec_string(1_600_000_000), "1600000000");
}

#[test]
fn decimal_parse_accepts_digits_and_rejects_the_rest() {
    assert_eq!(parse_i32_dec("0"), Some(0));
    assert_eq!(parse_i32_dec("42"), Some(42));
    assert_eq!(parse_i32_dec("0042"), Some(42));
    assert_eq!(parse_i32_dec("2147483647"), Some(2147483647));
    assert_eq!(parse_i32_dec("2147483648"), None);
    assert_eq!(parse_i32_dec("99999999999999999999"), None);
    assert_eq!(parse_i32_dec(""), None);
    assert_eq!(parse_i32_dec("12a"), None);
    assert_eq!(parse_i32_dec("-1"), None);
    assert_eq!(parse_i32_dec(" 1"), None);
}

#[test]
fn password_hash_verifies_and_differs_from_plaintext() {
    let hash = hash_password("open sesame").expect("hashing should succeed");
    assert_ne!(hash, "open sesame");
    assert!(verify_password("open sesame", &hash));
    assert!(!verify_password("open Sesame", &hash));
    assert!(!verify_password("open sesame", "not a phc hash"));
}

#[test]
fn refresh_token_generation_is_alphanumeric_and_fresh() {
    let store = TokenStore::new();
    let token = generate_refresh_token(&store).expect("an empty store cannot collide");
    assert_eq!(token.len(), 32);
    assert!(token.chars().all(|c| c.is_ascii_alphanumeric()));
    let other = generate_refresh_token(&store).expect("an empty store cannot collide");
    assert_ne!(token, other);
}

#[test]
fn api_key_generation_is_uuid_shaped() {
    let key = generate_api_key();
    assert_eq!(key.len(), 36);
    let chars: Vec<char> = key.chars().collect();
    for i in [8, 13, 18, 23] {
        assert_eq!(chars[i], '-', "hyphen expected at {}", i);
    }
    for (i, c) in chars.iter().enumerate() {
        if ![8, 13, 18, 23].contains(&i) {
            assert!(c.is_ascii_hexdigit() && !c.is_ascii_uppercase(), "at {}: {}", i, c);
        }
    }
    assert_eq!(chars[14], '4', "version nibble");
    assert!(matches!(chars[19], '8' | '9' | 'a' | 'b'), "variant nibble");
}

#[test]
fn access_token_subject_is_exact_decimal_id() {
    let store = TokenStore::new();
    let token = generate_access_token(7, SECRET, NOW, &store).expect("issuance should succeed");
    let claims = decode_access_token(&token, SECRET, NOW).expect("token should decode");
    assert_eq!(claims.sub, "7");
    assert_eq!(claims.exp, (NOW + 3600) as u64);
}

#[test]
fn access_token_issuance_avoids_stored_duplicates() {
    let mut store = TokenStore::new();
    let rec = create_access_token(&mut store, 9, SECRET, NOW).expect("issuance should succeed");
    assert_eq!(rec.user_id, 9);
    assert_eq!(rec.expires_at, NOW + 3600);
    assert!(store.access_token_exists(&rec.token));
    // The identical claims would mint the identical string, which the store
    // now holds, so a second issuance at the same instant must fail loudly.
    let e = create_access_token(&mut store, 9, SECRET, NOW).unwrap_err();
    assert!(matches!(e, Error::InternalCryptoError(_)));
    // A different user or a different instant mints a different string.
    let other = create_access_token(&mut store, 10, SECRET, NOW).expect("distinct claims");
    assert_ne!(other.token, rec.token);
}

#[test]
fn refresh_row_creation_sets_seven_day_expiry() {
    let mut store = TokenStore::new();
    let rec = create_refresh_token(&mut store, 5, NOW).expect("creation should succeed");
    assert_eq!(rec.user_id, 5);
    assert_eq!(rec.expires_at, NOW + 7 * 24 * 3600);
    assert_eq!(rec.token.len(), 32);
    assert!(store.refresh_token_exists(&rec.token));
}

#[test]
fn store_rotation_is_compare_and_swap() {
    let mut store = TokenStore::new();
    let old_token = "FFFFFFFFFFFFFFFFFFFFFFFFFFFFFFFF".to_string();
    store.insert_refresh(3, old_token.clone(), NOW);
    let first = store.rotate_refresh(&old_token, "G1".repeat(16), NOW + 10);
    assert!(first);
    // The old value no longer matches any row: the swap lost its anchor.
    let second = store.rotate_refresh(&old_token, "H2".repeat(16), NOW + 20);
    assert!(!second);
    assert!(store.find_refresh(&old_token).is_none());
    assert!(store.find_refresh(&"G1".repeat(16)).is_some());
}

#[test]
fn store_delete_removes_exactly_the_named_token() {
    let mut store = TokenStore::new();
    let a = "I3".repeat(16);
    let b = "J4".repeat(16);
    store.insert_refresh(1, a.clone(), NOW);
    store.insert_refresh(2, b.clone(), NOW);
    assert!(store.delete_refresh_token(&a));
    assert!(!store.delete_refresh_token(&a));
    assert!(store.find_refresh(&a).is_none());
    assert!(store.find_refresh(&b).is_some());
}

#[test]
fn bool_strings_are_lowercase_words() {
    assert_eq!(bool_to_string(true), "true");
    assert_eq!(bool_to_string(false), "false");
}

#[test]
fn todo_builder_appends_placeholders_and_binds_values() {
    let mut query = "UPDATE todos SET ".to_string();
    let mut params: Vec<String> = Vec::new();
    let updates = UpdateTodo {
        description: Some("buy milk".to_string()),
        done: Some(true),
    };
    build_update_query_string(&mut query, &mut params, &updates);
    assert_eq!(query, "UPDATE todos SET description = ?, done = ?, ");
    assert_eq!(params, vec!["buy milk".to_string(), "true".to_string()]);
}

#[test]
fn todo_builder_skips_absent_fields() {
    let mut query = String::new();
    let mut params: Vec<String> = Vec::new();
    let updates = UpdateTodo {
        description: None,
        done: Some(false),
    };
    build_update_query_string(&mut query, &mut params, &updates);
    assert_eq!(query, "done = ?, ");
    assert_eq!(params, vec!["false".to_string()]);

    let mut query = String::new();
    let mut params: Vec<String> = Vec::new();
    let none = UpdateTodo {
        description: None,
        done: None,
    };
    build_update_query_string(&mut query, &mut params, &none);
    assert_eq!(query, "");
    assert!(params.is_empty());
}

#[test]
fn user_builder_binds_the_hash_never_the_plaintext() {
    let mut query = "UPDATE users SET ".to_string();
    let mut params: Vec<String> = Vec::new();
    let updates = UpdateUser {
        username: Some("jan".to_string()),
        password: Some("new-password".to_string()),
        email: None,
        phone_number: None,
        phone_number_verified: Some(false),
    };
    users_update_query_builder(&mut query, &mut params, &updates).expect("hashing should succeed");
    assert_eq!(
        query,
        "UPDATE users SET username = ?, password_hash = ?, phone_number_verified = ?, "
    );
    assert_eq!(params.len(), 3);
    assert_eq!(params[0], "jan");
    assert_ne!(params[1], "new-password");
    assert!(verify_password("new-password", &params[1]));
    assert_eq!(params[2], "false");
}

#[test]
fn api_key_builder_appends_in_field_order() {
    let mut query = String::new();
    let mut params: Vec<String> = Vec::new();
    let updates = UpdateApiKey {
        api_key: None,
        client_name: Some("acme".to_string()),
        contact_email: Some("ops@acme.example".to_string()),
        is_active: Some(true),
    };
    api_keys_update_query_builder(&mut query, &mut params, &updates);
    assert_eq!(query, "client_name = ?, contact_email = ?, is_active = ?, ");
    assert_eq!(
        params,
        vec![
            "acme".to_string(),
            "ops@acme.example".to_string(),
            "true".to_string()
        ]
    );
}

#[test]
fn token_row_builders_bind_decimal_timestamps() {
    let mut query = String::new();
    let mut params: Vec<String> = Vec::new();
    let updates = UpdateRefreshToken {
        token: Some("K5".repeat(16)),
        expires_at: Some(1_700_000_000),
    };
    refresh_tokens_query_builder(&mut query, &mut params, &updates);
    assert_eq!(query, "token = ?, expires_at = ?, ");
    assert_eq!(params, vec!["K5".repeat(16), "1700000000".to_string()]);

    let mut query = String::new();
    let mut params: Vec<String> = Vec::new();
    let updates = todos_web_api::models::UpdateAccessToken {
        token: None,
        expires_at: Some(0),
    };
    access_tokens_query_builder(&mut query, &mut params, &updates);
    assert_eq!(query, "expires_at = ?, ");
    assert_eq!(params, vec!["0".to_string()]);
}

#[test]
fn validation_reports_each_violated_rule() {
    let login = LoginUser {
        username: "x".to_string(),
        password: String::new(),
    };
    let msgs = login.validate().unwrap_err();
    assert_eq!(msgs, vec!["password: Password cannot be empty.".to_string()]);

    let logout = LogoutUser {
        user_id: String::new(),
    };
    let msgs = logout.validate().unwrap_err();
    assert_eq!(msgs, vec!["user_id: User ID cannot be empty.".to_string()]);

    let todo = CreateTodo {
        user_id: 0,
        description: String::new(),
        done: false,
    };
    let msgs = todo.validate().unwrap_err();
    assert_eq!(
        msgs,
        vec![
            "user_id: User ID cannot be empty.".to_string(),
            "description: Description cannot be empty.".to_string()
        ]
    );

    let key = CreateApiKey {
        client_name: String::new(),
        contact_email: "ops@acme.example".to_string(),
    };
    let msgs = key.validate().unwrap_err();
    assert_eq!(msgs, vec!["client_name: Client Name is required.".to_string()]);

    let token_input = CreateAccessTokenFromInput { user_id: 0 };
    let msgs = token_input.validate().unwrap_err();
    assert_eq!(
        msgs,
        vec!["user_id: User_id must be greater than 0.".to_string()]
    );
    assert!(CreateAccessTokenFromInput { user_id: 1 }.validate().is_ok());
}

#[test]
fn validation_messages_join_with_comma_and_space() {
    let msgs = vec!["a: first.".to_string(), "b: second.".to_string()];
    assert_eq!(handle_validation_errors(&msgs), "a: first., b: second.");
    assert_eq!(handle_validation_errors(&Vec::new()), "");
    let one = vec!["only".to_string()];
    assert_eq!(handle_validation_errors(&one), "only");
}

#[test]
fn error_classes_map_to_stable_status_codes() {
    assert_eq!(Error::ValidationError("m".to_string()).status_code(), 400);
    assert_eq!(Error::AuthenticationError("m".to_string()).status_code(), 401);
    assert_eq!(Error::ConflictError("m".to_string()).status_code(), 409);
    assert_eq!(Error::StoreError("m".to_string()).status_code(), 500);
    assert_eq!(Error::InternalCryptoError("m".to_string()).status_code(), 500);
    assert_eq!(Error::StoreError("boom".to_string()).message(), "boom");
}
