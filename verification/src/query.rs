//! Parameterized SET-clause builders for the surrounding CRUD layer.
//!
//! Each builder walks the optional fields of an update body in declaration
//! order and, for every present field, appends a `field = ?` placeholder to
//! the query text and the bound value to the parameter list. Values never
//! reach the query text itself. A present password contributes its salted
//! hash to the parameters — the plaintext is neither stored nor bound.

use vstd::prelude::*;
use vstd::string::StringExecFns;

use crate::crypto::hash_password;
use crate::crypto::password_matches;
use crate::crypto::MAX_PASSWORD_CHARS;
use crate::decimal::dec_digits;
use crate::decimal::i64_to_dec_string;
use crate::error::Error;
use crate::models::UpdateAccessToken;
use crate::models::UpdateApiKey;
use crate::models::UpdateRefreshToken;
use crate::models::UpdateTodo;
use crate::models::UpdateUser;

verus! {

/// The text of a boolean, as a bound parameter carries it.
pub open spec fn bool_str(b: bool) -> Seq<char> {
    if b {
        "true"@
    } else {
        "false"@
    }
}

/// The text of a boolean.
pub fn bool_to_string(b: bool) -> (r: String)
    ensures
        r@ == bool_str(b),
{
    if b {
        "true".to_owned()
    } else {
        "false".to_owned()
    }
}

/// The SET fragments a todo update contributes, in field order.
pub open spec fn todo_set_clauses(u: UpdateTodo) -> Seq<char> {
    (if u.description is Some {
        "description = ?, "@
    } else {
        Seq::empty()
    }) + (if u.done is Some {
        "done = ?, "@
    } else {
        Seq::empty()
    })
}

/// The parameters a todo update binds, in field order.
pub open spec fn todo_params(u: UpdateTodo) -> Seq<Seq<char>> {
    (match u.description {
        Some(d) => seq![d@],
        None => Seq::empty(),
    }) + (match u.done {
        Some(b) => seq![bool_str(b)],
        None => Seq::empty(),
    })
}

/// Appends the SET fragments and bound parameters of a todo update.
pub fn build_update_query_string(query: &mut String, params: &mut Vec<String>, updates: &UpdateTodo)
    ensures
        final(query)@ == old(query)@ + todo_set_clauses(*updates),
        final(params).deep_view() == old(params).deep_view() + todo_params(*updates),
{
    if let Some(description) = &updates.description {
        query.append("description = ?, ");
        params.push(description.clone());
    }
    if let Some(done) = updates.done {
        query.append("done = ?, ");
        params.push(bool_to_string(done));
    }
    proof {
        assert(query@ =~= old(query)@ + todo_set_clauses(*updates));
        assert(params.deep_view() =~= old(params).deep_view() + todo_params(*updates));
    }
}

/// The SET fragments a profile update contributes, in field order; a
/// present password updates the stored hash column.
pub open spec fn user_set_clauses(u: UpdateUser) -> Seq<char> {
    (if u.username is Some {
        "username = ?, "@
    } else {
        Seq::empty()
    }) + (if u.password is Some {
        "password_hash = ?, "@
    } else {
        Seq::empty()
    }) + (if u.email is Some {
        "email = ?, "@
    } else {
        Seq::empty()
    }) + (if u.phone_number is Some {
        "phone_number = ?, "@
    } else {
        Seq::empty()
    }) + (if u.phone_number_verified is Some {
        "phone_number_verified = ?, "@
    } else {
        Seq::empty()
    })
}

/// The parameters a profile update binds when the password hashes to `h`,
/// in field order.
pub open spec fn user_params_with(u: UpdateUser, h: Seq<char>) -> Seq<Seq<char>> {
    (match u.username {
        Some(v) => seq![v@],
        None => Seq::empty(),
    }) + (match u.password {
        Some(_) => seq![h],
        None => Seq::empty(),
    }) + (match u.email {
        Some(v) => seq![v@],
        None => Seq::empty(),
    }) + (match u.phone_number {
        Some(v) => seq![v@],
        None => Seq::empty(),
    }) + (match u.phone_number_verified {
        Some(b) => seq![bool_str(b)],
        None => Seq::empty(),
    })
}

/// Appends the SET fragments and bound parameters of a profile update,
/// hashing a present password first. Hashing rejects only a password past
/// argon2's input limit; on that one failure nothing is appended.
#[verifier::rlimit(60)]
pub fn users_update_query_builder(
    query: &mut String,
    params: &mut Vec<String>,
    updates: &UpdateUser,
) -> (r: Result<(), Error>)
    ensures
        r matches Err(e) ==> (e is InternalCryptoError && (updates.password matches Some(p)
            && p@.len() > MAX_PASSWORD_CHARS) && final(query)@ == old(query)@ && final(params)@
            == old(params)@),
        (match updates.password {
            Some(p) => p@.len() <= MAX_PASSWORD_CHARS,
            None => true,
        }) ==> r is Ok,
        r is Ok ==> final(query)@ == old(query)@ + user_set_clauses(*updates) && exists|
            h: Seq<char>,
        |
            final(params).deep_view() == old(params).deep_view() + #[trigger] user_params_with(
                *updates,
                h,
            ) && (updates.password matches Some(p) ==> password_matches(p@, h)),
{
    let hashed: Option<String> = match &updates.password {
        Some(password) => match hash_password(password.as_str()) {
            Some(h) => Some(h),
            None => {
                return Err(Error::InternalCryptoError("Error hashing password".to_owned()));
            },
        },
        None => None,
    };
    if let Some(username) = &updates.username {
        query.append("username = ?, ");
        params.push(username.clone());
    }
    if let Some(hash) = &hashed {
        query.append("password_hash = ?, ");
        params.push(hash.clone());
    }
    if let Some(email) = &updates.email {
        query.append("email = ?, ");
        params.push(email.clone());
    }
    if let Some(phone_number) = &updates.phone_number {
        query.append("phone_number = ?, ");
        params.push(phone_number.clone());
    }
    if let Some(verified) = updates.phone_number_verified {
        query.append("phone_number_verified = ?, ");
        params.push(bool_to_string(verified));
    }
    proof {
        let h = match hashed {
            Some(hs) => hs@,
            None => Seq::<char>::empty(),
        };
        assert(query@ =~= old(query)@ + user_set_clauses(*updates));
        assert(params.deep_view() =~= old(params).deep_view() + user_params_with(*updates, h));
    }
    Ok(())
}

/// The SET fragments an API-key update contributes, in field order.
pub open spec fn api_key_set_clauses(u: UpdateApiKey) -> Seq<char> {
    (if u.api_key is Some {
        "api_key = ?, "@
    } else {
        Seq::empty()
    }) + (if u.client_name is Some {
        "client_name = ?, "@
    } else {
        Seq::empty()
    }) + (if u.contact_email is Some {
        "contact_email = ?, "@
    } else {
        Seq::empty()
    }) + (if u.is_active is Some {
        "is_active = ?, "@
    } else {
        Seq::empty()
    })
}

/// The parameters an API-key update binds, in field order.
pub open spec fn api_key_params(u: UpdateApiKey) -> Seq<Seq<char>> {
    (match u.api_key {
        Some(v) => seq![v@],
        None => Seq::empty(),
    }) + (match u.client_name {
        Some(v) => seq![v@],
        None => Seq::empty(),
    }) + (match u.contact_email {
        Some(v) => seq![v@],
        None => Seq::empty(),
    }) + (match u.is_active {
        Some(b) => seq![bool_str(b)],
        None => Seq::empty(),
    })
}

/// Appends the SET fragments and bound parameters of an API-key update.
pub fn api_keys_update_query_builder(
    query: &mut String,
    params: &mut Vec<String>,
    updates: &UpdateApiKey,
)
    ensures
        final(query)@ == old(query)@ + api_key_set_clauses(*updates),
        final(params).deep_view() == old(params).deep_view() + api_key_params(*updates),
{
    if let Some(api_key) = &updates.api_key {
        query.append("api_key = ?, ");
        params.push(api_key.clone());
    }
    if let Some(client_name) = &updates.client_name {
        query.append("client_name = ?, ");
        params.push(client_name.clone());
    }
    if let Some(contact_email) = &updates.contact_email {
        query.append("contact_email = ?, ");
        params.push(contact_email.clone());
    }
    if let Some(is_active) = updates.is_active {
        query.append("is_active = ?, ");
        params.push(bool_to_string(is_active));
    }
    proof {
        assert(query@ =~= old(query)@ + api_key_set_clauses(*updates));
        assert(params.deep_view() =~= old(params).deep_view() + api_key_params(*updates));
    }
}

/// The SET fragments a refresh-token row update contributes, in field
/// order.
pub open spec fn refresh_token_set_clauses(u: UpdateRefreshToken) -> Seq<char> {
    (if u.token is Some {
        "token = ?, "@
    } else {
        Seq::empty()
    }) + (if u.expires_at is Some {
        "expires_at = ?, "@
    } else {
        Seq::empty()
    })
}

/// The parameters a refresh-token row update binds, in field order.
pub open spec fn refresh_token_params(u: UpdateRefreshToken) -> Seq<Seq<char>> {
    (match u.token {
        Some(v) => seq![v@],
        None => Seq::empty(),
    }) + (match u.expires_at {
        Some(ts) => seq![dec_digits(ts as nat)],
        None => Seq::empty(),
    })
}

/// Appends the SET fragments and bound parameters of a refresh-token row
/// update. Timestamps are bound in decimal Unix-seconds form.
pub fn refresh_tokens_query_builder(
    query: &mut String,
    params: &mut Vec<String>,
    updates: &UpdateRefreshToken,
)
    requires
        updates.expires_at matches Some(ts) ==> ts >= 0,
    ensures
        final(query)@ == old(query)@ + refresh_token_set_clauses(*updates),
        final(params).deep_view() == old(params).deep_view() + refresh_token_params(*updates),
{
    if let Some(token) = &updates.token {
        query.append("token = ?, ");
        params.push(token.clone());
    }
    if let Some(expires_at) = updates.expires_at {
        query.append("expires_at = ?, ");
        params.push(i64_to_dec_string(expires_at));
    }
    proof {
        assert(query@ =~= old(query)@ + refresh_token_set_clauses(*updates));
        assert(params.deep_view() =~= old(params).deep_view() + refresh_token_params(*updates));
    }
}

/// The SET fragments an access-token row update contributes, in field
/// order.
pub open spec fn access_token_set_clauses(u: UpdateAccessToken) -> Seq<char> {
    (if u.token is Some {
        "token = ?, "@
    } else {
        Seq::empty()
    }) + (if u.expires_at is Some {
        "expires_at = ?, "@
    } else {
        Seq::empty()
    })
}

/// The parameters an access-token row update binds, in field order.
pub open spec fn access_token_params(u: UpdateAccessToken) -> Seq<Seq<char>> {
    (match u.token {
        Some(v) => seq![v@],
        None => Seq::empty(),
    }) + (match u.expires_at {
        Some(ts) => seq![dec_digits(ts as nat)],
        None => Seq::empty(),
    })
}

/// Appends the SET fragments and bound parameters of an access-token row
/// update. Timestamps are bound in decimal Unix-seconds form.
pub fn access_tokens_query_builder(
    query: &mut String,
    params: &mut Vec<String>,
    updates: &UpdateAccessToken,
)
    requires
        updates.expires_at matches Some(ts) ==> ts >= 0,
    ensures
        final(query)@ == old(query)@ + access_token_set_clauses(*updates),
        final(params).deep_view() == old(params).deep_view() + access_token_params(*updates),
{
    if let Some(token) = &updates.token {
        query.append("token = ?, ");
        params.push(token.clone());
    }
    if let Some(expires_at) = updates.expires_at {
        query.append("expires_at = ?, ");
        params.push(i64_to_dec_string(expires_at));
    }
    proof {
        assert(query@ =~= old(query)@ + access_token_set_clauses(*updates));
        assert(params.deep_view() =~= old(params).deep_view() + access_token_params(*updates));
    }
}

} // verus!
