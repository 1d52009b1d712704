//! Boundary validation of request bodies.
//!
//! Each input type checks its own fields before any store access and
//! reports one message per violated rule, in field order. The helper
//! [`handle_validation_errors`] joins those messages into the single string
//! a response body carries.

use vstd::prelude::*;
use vstd::string::StringExecFns;

use crate::models::CreateAccessTokenFromInput;
use crate::models::CreateApiKey;
use crate::models::CreateTodo;
use crate::models::CreateUserFromInput;
use crate::models::LoginUser;
use crate::models::LogoutUser;

verus! {

/// Whether a login body is acceptable: both fields non-empty.
pub open spec fn login_user_valid(u: LoginUser) -> bool {
    u.username@.len() > 0 && u.password@.len() > 0
}

/// The messages a rejected login body earns, in field order.
pub open spec fn login_user_messages(u: LoginUser) -> Seq<Seq<char>> {
    (if u.username@.len() == 0 {
        seq!["username: Username cannot be empty."@]
    } else {
        Seq::empty()
    }) + (if u.password@.len() == 0 {
        seq!["password: Password cannot be empty."@]
    } else {
        Seq::empty()
    })
}

/// Whether a logout body is acceptable: a non-empty user id.
pub open spec fn logout_user_valid(u: LogoutUser) -> bool {
    u.user_id@.len() > 0
}

/// The messages a rejected logout body earns.
pub open spec fn logout_user_messages(u: LogoutUser) -> Seq<Seq<char>> {
    if u.user_id@.len() == 0 {
        seq!["user_id: User ID cannot be empty."@]
    } else {
        Seq::empty()
    }
}

/// Whether a todo-creation body is acceptable: a positive owner and a
/// non-empty description.
pub open spec fn create_todo_valid(u: CreateTodo) -> bool {
    u.user_id > 0 && u.description@.len() > 0
}

/// The messages a rejected todo-creation body earns, in field order.
pub open spec fn create_todo_messages(u: CreateTodo) -> Seq<Seq<char>> {
    (if u.user_id <= 0 {
        seq!["user_id: User ID cannot be empty."@]
    } else {
        Seq::empty()
    }) + (if u.description@.len() == 0 {
        seq!["description: Description cannot be empty."@]
    } else {
        Seq::empty()
    })
}

/// Whether an API-key-creation body is acceptable: both fields non-empty.
pub open spec fn create_api_key_valid(u: CreateApiKey) -> bool {
    u.client_name@.len() > 0 && u.contact_email@.len() > 0
}

/// The messages a rejected API-key-creation body earns, in field order.
pub open spec fn create_api_key_messages(u: CreateApiKey) -> Seq<Seq<char>> {
    (if u.client_name@.len() == 0 {
        seq!["client_name: Client Name is required."@]
    } else {
        Seq::empty()
    }) + (if u.contact_email@.len() == 0 {
        seq!["contact_email: Client Email is required."@]
    } else {
        Seq::empty()
    })
}

/// Whether a registration body is acceptable: username, email and password
/// non-empty and a phone number present.
pub open spec fn create_user_valid(u: CreateUserFromInput) -> bool {
    u.username@.len() > 0 && u.email@.len() > 0 && u.password@.len() > 0 && u.phone_number is Some
}

/// The messages a rejected registration body earns, in field order.
pub open spec fn create_user_messages(u: CreateUserFromInput) -> Seq<Seq<char>> {
    (if u.username@.len() == 0 {
        seq!["username: Username cannot be empty."@]
    } else {
        Seq::empty()
    }) + (if u.email@.len() == 0 {
        seq!["email: Email cannot be empty."@]
    } else {
        Seq::empty()
    }) + (if u.password@.len() == 0 {
        seq!["password: Password cannot be empty."@]
    } else {
        Seq::empty()
    }) + (if u.phone_number is None {
        seq!["phone_number: Phone number cannot be empty."@]
    } else {
        Seq::empty()
    })
}

/// Whether an access-token-creation body is acceptable: a positive owner.
pub open spec fn create_access_token_input_valid(u: CreateAccessTokenFromInput) -> bool {
    u.user_id > 0
}

/// The messages a rejected access-token-creation body earns.
pub open spec fn create_access_token_input_messages(u: CreateAccessTokenFromInput) -> Seq<
    Seq<char>,
> {
    if u.user_id <= 0 {
        seq!["user_id: User_id must be greater than 0."@]
    } else {
        Seq::empty()
    }
}

impl LoginUser {
    /// Checks both fields, reporting one message per empty field.
    pub fn validate(&self) -> (r: Result<(), Vec<String>>)
        ensures
            r is Ok <==> login_user_valid(*self),
            r matches Err(v) ==> v.deep_view() == login_user_messages(*self),
    {
        let mut errors: Vec<String> = Vec::new();
        if self.username.as_str().is_empty() {
            errors.push("username: Username cannot be empty.".to_owned());
        }
        if self.password.as_str().is_empty() {
            errors.push("password: Password cannot be empty.".to_owned());
        }
        if errors.is_empty() {
            Ok(())
        } else {
            proof {
                assert(errors.deep_view() =~= login_user_messages(*self));
            }
            Err(errors)
        }
    }
}

impl LogoutUser {
    /// Checks that the user id field is non-empty.
    pub fn validate(&self) -> (r: Result<(), Vec<String>>)
        ensures
            r is Ok <==> logout_user_valid(*self),
            r matches Err(v) ==> v.deep_view() == logout_user_messages(*self),
    {
        let mut errors: Vec<String> = Vec::new();
        if self.user_id.as_str().is_empty() {
            errors.push("user_id: User ID cannot be empty.".to_owned());
        }
        if errors.is_empty() {
            Ok(())
        } else {
            proof {
                assert(errors.deep_view() =~= logout_user_messages(*self));
            }
            Err(errors)
        }
    }
}

impl CreateTodo {
    /// Checks the owner id and the description.
    pub fn validate(&self) -> (r: Result<(), Vec<String>>)
        ensures
            r is Ok <==> create_todo_valid(*self),
            r matches Err(v) ==> v.deep_view() == create_todo_messages(*self),
    {
        let mut errors: Vec<String> = Vec::new();
        if self.user_id <= 0 {
            errors.push("user_id: User ID cannot be empty.".to_owned());
        }
        if self.description.as_str().is_empty() {
            errors.push("description: Description cannot be empty.".to_owned());
        }
        if errors.is_empty() {
            Ok(())
        } else {
            proof {
                assert(errors.deep_view() =~= create_todo_messages(*self));
            }
            Err(errors)
        }
    }
}

impl CreateApiKey {
    /// Checks the client name and the contact email.
    pub fn validate(&self) -> (r: Result<(), Vec<String>>)
        ensures
            r is Ok <==> create_api_key_valid(*self),
            r matches Err(v) ==> v.deep_view() == create_api_key_messages(*self),
    {
        let mut errors: Vec<String> = Vec::new();
        if self.client_name.as_str().is_empty() {
            errors.push("client_name: Client Name is required.".to_owned());
        }
        if self.contact_email.as_str().is_empty() {
            errors.push("contact_email: Client Email is required.".to_owned());
        }
        if errors.is_empty() {
            Ok(())
        } else {
            proof {
                assert(errors.deep_view() =~= create_api_key_messages(*self));
            }
            Err(errors)
        }
    }
}

impl CreateUserFromInput {
    /// Checks the username, email, password and phone-number fields.
    pub fn validate(&self) -> (r: Result<(), Vec<String>>)
        ensures
            r is Ok <==> create_user_valid(*self),
            r matches Err(v) ==> v.deep_view() == create_user_messages(*self),
    {
        let mut errors: Vec<String> = Vec::new();
        if self.username.as_str().is_empty() {
            errors.push("username: Username cannot be empty.".to_owned());
        }
        if self.email.as_str().is_empty() {
            errors.push("email: Email cannot be empty.".to_owned());
        }
        if self.password.as_str().is_empty() {
            errors.push("password: Password cannot be empty.".to_owned());
        }
        if self.phone_number.is_none() {
            errors.push("phone_number: Phone number cannot be empty.".to_owned());
        }
        if errors.is_empty() {
            Ok(())
        } else {
            proof {
                assert(errors.deep_view() =~= create_user_messages(*self));
            }
            Err(errors)
        }
    }
}

impl CreateAccessTokenFromInput {
    /// Checks that the owner id is positive.
    pub fn validate(&self) -> (r: Result<(), Vec<String>>)
        ensures
            r is Ok <==> create_access_token_input_valid(*self),
            r matches Err(v) ==> v.deep_view() == create_access_token_input_messages(*self),
    {
        let mut errors: Vec<String> = Vec::new();
        if self.user_id <= 0 {
            errors.push("user_id: User_id must be greater than 0.".to_owned());
        }
        if errors.is_empty() {
            Ok(())
        } else {
            proof {
                assert(errors.deep_view() =~= create_access_token_input_messages(*self));
            }
            Err(errors)
        }
    }
}

/// The messages joined with a comma and a space, in order.
pub open spec fn join_messages(s: Seq<Seq<char>>) -> Seq<char>
    decreases s.len(),
{
    if s.len() == 0 {
        Seq::empty()
    } else if s.len() == 1 {
        s[0]
    } else {
        join_messages(s.drop_last()) + ", "@ + s.last()
    }
}

/// Formats a list of validation messages as one comma-separated string.
#[verifier::loop_isolation(false)]
pub fn handle_validation_errors(errors: &Vec<String>) -> (r: String)
    ensures
        r@ == join_messages(errors.deep_view()),
{
    let mut out = String::new();
    let n = errors.len();
    let mut i: usize = 0;
    proof {
        assert(errors.deep_view().subrange(0, 0) =~= Seq::<Seq<char>>::empty());
    }
    while i < n
        invariant
            0 <= i <= n,
            n == errors@.len(),
            out@ == join_messages(errors.deep_view().subrange(0, i as int)),
        decreases n - i,
    {
        if i > 0 {
            out.append(", ");
        }
        out.append(errors[i].as_str());
        proof {
            let dv = errors.deep_view();
            let t = dv.subrange(0, i + 1);
            assert(t.drop_last() =~= dv.subrange(0, i as int));
            assert(t.last() == dv[i as int]);
            assert(dv[i as int] == errors@[i as int]@);
            assert(out@ =~= join_messages(t));
        }
        i = i + 1;
    }
    proof {
        assert(errors.deep_view().subrange(0, n as int) =~= errors.deep_view());
    }
    out
}

} // verus!
