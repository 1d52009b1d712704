//! The persisted-record store of the core.
//!
//! Users, refresh tokens, access-token rows and API keys live here. The
//! store enforces, as an invariant, what the original schema enforced with
//! unique constraints: token strings, API keys and usernames are unique, and
//! row identifiers are handed out by a per-table counter. Every operation
//! carries a contract over the record sequences, so the flows built on top
//! can reason about exactly which rows exist after each call.

use vstd::prelude::*;
use vstd::std_specs::vec::vec_index_mut;

use crate::models::AccessTokenRecord;
use crate::models::ApiKey;
use crate::models::RefreshTokenRecord;
use crate::models::User;

verus! {

/// Whether some user in `s` carries the username `name`.
pub open spec fn has_username(s: Seq<User>, name: Seq<char>) -> bool {
    exists|i: int| 0 <= i < s.len() && (#[trigger] s[i]).username@ == name
}

/// Whether some user in `s` carries the email `email`.
pub open spec fn has_email(s: Seq<User>, email: Seq<char>) -> bool {
    exists|i: int| 0 <= i < s.len() && (#[trigger] s[i]).email@ == email
}

/// Whether some refresh-token row in `s` carries the token string `t`.
pub open spec fn has_refresh_token(s: Seq<RefreshTokenRecord>, t: Seq<char>) -> bool {
    exists|i: int| 0 <= i < s.len() && (#[trigger] s[i]).token@ == t
}

/// Whether some access-token row in `s` carries the token string `t`.
pub open spec fn has_access_token(s: Seq<AccessTokenRecord>, t: Seq<char>) -> bool {
    exists|i: int| 0 <= i < s.len() && (#[trigger] s[i]).token@ == t
}

/// Whether some API-key row in `s` carries the key string `k`.
pub open spec fn has_api_key(s: Seq<ApiKey>, k: Seq<char>) -> bool {
    exists|i: int| 0 <= i < s.len() && (#[trigger] s[i]).api_key@ == k
}

/// Whether some *active* API-key row in `s` carries the key string `k`.
pub open spec fn has_active_api_key(s: Seq<ApiKey>, k: Seq<char>) -> bool {
    exists|i: int| 0 <= i < s.len() && (#[trigger] s[i]).api_key@ == k && s[i].is_active
}

/// Distinct users carry distinct usernames.
pub open spec fn usernames_unique(s: Seq<User>) -> bool {
    forall|i: int, j: int| #![trigger s[i], s[j]]
        0 <= i < j < s.len() ==> s[i].username@ != s[j].username@
}

/// Distinct refresh-token rows carry distinct token strings.
pub open spec fn refresh_tokens_unique(s: Seq<RefreshTokenRecord>) -> bool {
    forall|i: int, j: int| #![trigger s[i], s[j]]
        0 <= i < j < s.len() ==> s[i].token@ != s[j].token@
}

/// Distinct access-token rows carry distinct token strings.
pub open spec fn access_tokens_unique(s: Seq<AccessTokenRecord>) -> bool {
    forall|i: int, j: int| #![trigger s[i], s[j]]
        0 <= i < j < s.len() ==> s[i].token@ != s[j].token@
}

/// Distinct API-key rows carry distinct key strings.
pub open spec fn api_keys_unique(s: Seq<ApiKey>) -> bool {
    forall|i: int, j: int| #![trigger s[i], s[j]]
        0 <= i < j < s.len() ==> s[i].api_key@ != s[j].api_key@
}

/// Every user id is positive and below the next id to hand out.
pub open spec fn user_ids_bounded(s: Seq<User>, next: i32) -> bool {
    forall|i: int| 0 <= i < s.len() ==> 1 <= (#[trigger] s[i]).id < next
}

/// Every refresh-row id is positive and below the next id to hand out.
pub open spec fn refresh_ids_bounded(s: Seq<RefreshTokenRecord>, next: i32) -> bool {
    forall|i: int| 0 <= i < s.len() ==> 1 <= (#[trigger] s[i]).id < next
}

/// Every refresh-token row is owned by a real (positive) user id.
pub open spec fn refresh_user_ids_positive(s: Seq<RefreshTokenRecord>) -> bool {
    forall|i: int| 0 <= i < s.len() ==> (#[trigger] s[i]).user_id >= 1
}

/// Every access-row id is positive and below the next id to hand out.
pub open spec fn access_ids_bounded(s: Seq<AccessTokenRecord>, next: i32) -> bool {
    forall|i: int| 0 <= i < s.len() ==> 1 <= (#[trigger] s[i]).id < next
}

/// Every API-key id is positive and below the next id to hand out.
pub open spec fn api_key_ids_bounded(s: Seq<ApiKey>, next: i32) -> bool {
    forall|i: int| 0 <= i < s.len() ==> 1 <= (#[trigger] s[i]).id < next
}

/// In-memory store of the five record tables the core works over.
pub struct TokenStore {
    pub users: Vec<User>,
    pub refresh_tokens: Vec<RefreshTokenRecord>,
    pub access_tokens: Vec<AccessTokenRecord>,
    pub api_keys: Vec<ApiKey>,
    pub next_user_id: i32,
    pub next_refresh_id: i32,
    pub next_access_id: i32,
    pub next_api_key_id: i32,
}

/// The user records and their counter agree between two stores.
pub open spec fn users_unchanged(a: TokenStore, b: TokenStore) -> bool {
    a.users@ == b.users@ && a.next_user_id == b.next_user_id
}

/// The refresh-token rows and their counter agree between two stores.
pub open spec fn refresh_unchanged(a: TokenStore, b: TokenStore) -> bool {
    a.refresh_tokens@ == b.refresh_tokens@ && a.next_refresh_id == b.next_refresh_id
}

/// The access-token rows and their counter agree between two stores.
pub open spec fn access_unchanged(a: TokenStore, b: TokenStore) -> bool {
    a.access_tokens@ == b.access_tokens@ && a.next_access_id == b.next_access_id
}

/// The API-key rows and their counter agree between two stores.
pub open spec fn api_keys_unchanged(a: TokenStore, b: TokenStore) -> bool {
    a.api_keys@ == b.api_keys@ && a.next_api_key_id == b.next_api_key_id
}

/// Nothing in the store differs between two stores.
pub open spec fn store_unchanged(a: TokenStore, b: TokenStore) -> bool {
    users_unchanged(a, b) && refresh_unchanged(a, b) && access_unchanged(a, b)
        && api_keys_unchanged(a, b)
}

/// Every element of a filtered sequence occurs in the sequence it was
/// filtered from.
pub proof fn lemma_filter_is_subset<A>(s: Seq<A>, pred: spec_fn(A) -> bool)
    ensures
        forall|k: int|
            0 <= k < s.filter(pred).len() ==> s.contains(#[trigger] s.filter(pred)[k]),
    decreases s.len(),
{
    reveal(Seq::filter);
    if s.len() > 0 {
        let d = s.drop_last();
        lemma_filter_is_subset(d, pred);
        assert forall|k: int|
            0 <= k < s.filter(pred).len() implies s.contains(#[trigger] s.filter(pred)[k]) by {
            if k < d.filter(pred).len() {
                assert(d.contains(d.filter(pred)[k]));
                let w = choose|w: int| 0 <= w < d.len() && d[w] == d.filter(pred)[k];
                assert(s[w] == s.filter(pred)[k]);
            } else {
                assert(s.filter(pred)[k] == s.last());
                assert(s[s.len() - 1] == s.last());
            }
        }
    }
}

impl TokenStore {
    /// The store invariant: unique usernames, token strings and key strings,
    /// and identifiers consistent with the per-table counters.
    pub open spec fn wf(self) -> bool {
        &&& usernames_unique(self.users@)
        &&& refresh_tokens_unique(self.refresh_tokens@)
        &&& access_tokens_unique(self.access_tokens@)
        &&& api_keys_unique(self.api_keys@)
        &&& user_ids_bounded(self.users@, self.next_user_id)
        &&& refresh_ids_bounded(self.refresh_tokens@, self.next_refresh_id)
        &&& refresh_user_ids_positive(self.refresh_tokens@)
        &&& access_ids_bounded(self.access_tokens@, self.next_access_id)
        &&& api_key_ids_bounded(self.api_keys@, self.next_api_key_id)
        &&& 1 <= self.next_user_id
        &&& 1 <= self.next_refresh_id
        &&& 1 <= self.next_access_id
        &&& 1 <= self.next_api_key_id
    }

    /// An empty store.
    pub fn new() -> (s: TokenStore)
        ensures
            s.wf(),
            s.users@.len() == 0,
            s.refresh_tokens@.len() == 0,
            s.access_tokens@.len() == 0,
            s.api_keys@.len() == 0,
    {
        TokenStore {
            users: Vec::new(),
            refresh_tokens: Vec::new(),
            access_tokens: Vec::new(),
            api_keys: Vec::new(),
            next_user_id: 1,
            next_refresh_id: 1,
            next_access_id: 1,
            next_api_key_id: 1,
        }
    }

    /// Looks a user up by exact username.
    #[verifier::loop_isolation(false)]
    pub fn find_user_by_username(&self, username: &str) -> (r: Option<&User>)
        ensures
            (r matches Some(u) ==> exists|i: int|
                0 <= i < self.users@.len() && *u == (#[trigger] self.users@[i]) && u.username@
                    == username@),
            r is None ==> !has_username(self.users@, username@),
    {
        let target = username.to_owned();
        let n = self.users.len();
        let mut i: usize = 0;
        while i < n
            invariant
                0 <= i <= n,
                n == self.users@.len(),
                target@ == username@,
                forall|k: int| 0 <= k < i ==> (#[trigger] self.users@[k]).username@ != username@,
            decreases n - i,
        {
            if self.users[i].username == target {
                return Some(&self.users[i]);
            }
            i = i + 1;
        }
        None
    }

    /// Whether some user carries the given username.
    pub fn username_taken(&self, username: &str) -> (r: bool)
        ensures
            r == has_username(self.users@, username@),
    {
        match self.find_user_by_username(username) {
            Some(_) => true,
            None => false,
        }
    }

    /// Whether some user carries the given email.
    #[verifier::loop_isolation(false)]
    pub fn email_taken(&self, email: &str) -> (r: bool)
        ensures
            r == has_email(self.users@, email@),
    {
        let target = email.to_owned();
        let n = self.users.len();
        let mut i: usize = 0;
        while i < n
            invariant
                0 <= i <= n,
                n == self.users@.len(),
                target@ == email@,
                forall|k: int| 0 <= k < i ==> (#[trigger] self.users@[k]).email@ != email@,
            decreases n - i,
        {
            if self.users[i].email == target {
                return true;
            }
            i = i + 1;
        }
        false
    }

    /// Inserts a user record, handing out the next user id.
    pub fn insert_user(
        &mut self,
        username: String,
        password_hash: String,
        email: String,
        phone_number: Option<String>,
    ) -> (id: i32)
        requires
            old(self).wf(),
            !has_username(old(self).users@, username@),
            old(self).next_user_id < i32::MAX,
        ensures
            final(self).wf(),
            id == old(self).next_user_id,
            final(self).users@ == old(self).users@.push(
                (User {
                    id: old(self).next_user_id,
                    username: username,
                    password_hash: password_hash,
                    email: email,
                    phone_number: phone_number,
                    phone_number_verified: false,
                }),
            ),
            final(self).next_user_id == old(self).next_user_id + 1,
            refresh_unchanged(*old(self), *final(self)),
            access_unchanged(*old(self), *final(self)),
            api_keys_unchanged(*old(self), *final(self)),
    {
        let id = self.next_user_id;
        let user = User {
            id,
            username,
            password_hash,
            email,
            phone_number,
            phone_number_verified: false,
        };
        self.users.push(user);
        self.next_user_id = id + 1;
        proof {
            let f = self.users@;
            let o = old(self).users@;
            assert forall|i: int, j: int| #![trigger f[i], f[j]]
                0 <= i < j < f.len() implies f[i].username@ != f[j].username@ by {
                if j < o.len() {
                    assert(o[i].username@ != o[j].username@);
                } else {
                    assert(f[i] == o[i]);
                }
            }
            assert forall|i: int| 0 <= i < f.len() implies 1 <= (#[trigger] f[i]).id
                < self.next_user_id by {
                if i < o.len() {
                    assert(1 <= o[i].id < old(self).next_user_id);
                }
            }
        }
        id
    }

    /// Whether some refresh-token row carries the given token string.
    #[verifier::loop_isolation(false)]
    pub fn refresh_token_exists(&self, token: &str) -> (r: bool)
        ensures
            r == has_refresh_token(self.refresh_tokens@, token@),
    {
        let target = token.to_owned();
        let n = self.refresh_tokens.len();
        let mut i: usize = 0;
        while i < n
            invariant
                0 <= i <= n,
                n == self.refresh_tokens@.len(),
                target@ == token@,
                forall|k: int|
                    0 <= k < i ==> (#[trigger] self.refresh_tokens@[k]).token@ != token@,
            decreases n - i,
        {
            if self.refresh_tokens[i].token == target {
                return true;
            }
            i = i + 1;
        }
        false
    }

    /// Looks a refresh-token row up by exact token string.
    #[verifier::loop_isolation(false)]
    pub fn find_refresh(&self, token: &str) -> (r: Option<RefreshTokenRecord>)
        ensures
            (r matches Some(rec) ==> exists|i: int|
                0 <= i < self.refresh_tokens@.len() && rec == (#[trigger] self.refresh_tokens@[i])
                    && rec.token@ == token@),
            r is None ==> !has_refresh_token(self.refresh_tokens@, token@),
    {
        let target = token.to_owned();
        let n = self.refresh_tokens.len();
        let mut i: usize = 0;
        while i < n
            invariant
                0 <= i <= n,
                n == self.refresh_tokens@.len(),
                target@ == token@,
                forall|k: int|
                    0 <= k < i ==> (#[trigger] self.refresh_tokens@[k]).token@ != token@,
            decreases n - i,
        {
            if self.refresh_tokens[i].token == target {
                return Some(self.refresh_tokens[i].clone());
            }
            i = i + 1;
        }
        None
    }

    /// Inserts a refresh-token row, handing out the next row id. The token
    /// must be fresh; the store keeps token strings unique.
    pub fn insert_refresh(&mut self, user_id: i32, token: String, expires_at: i64) -> (id: i32)
        requires
            old(self).wf(),
            !has_refresh_token(old(self).refresh_tokens@, token@),
            old(self).next_refresh_id < i32::MAX,
            user_id >= 1,
        ensures
            final(self).wf(),
            id == old(self).next_refresh_id,
            final(self).refresh_tokens@ == old(self).refresh_tokens@.push(
                (RefreshTokenRecord {
                    id: old(self).next_refresh_id,
                    user_id: user_id,
                    token: token,
                    expires_at: expires_at,
                }),
            ),
            final(self).next_refresh_id == old(self).next_refresh_id + 1,
            users_unchanged(*old(self), *final(self)),
            access_unchanged(*old(self), *final(self)),
            api_keys_unchanged(*old(self), *final(self)),
    {
        let id = self.next_refresh_id;
        let rec = RefreshTokenRecord { id, user_id, token, expires_at };
        self.refresh_tokens.push(rec);
        self.next_refresh_id = id + 1;
        proof {
            let f = self.refresh_tokens@;
            let o = old(self).refresh_tokens@;
            assert forall|i: int, j: int| #![trigger f[i], f[j]]
                0 <= i < j < f.len() implies f[i].token@ != f[j].token@ by {
                if j < o.len() {
                    assert(o[i].token@ != o[j].token@);
                } else {
                    assert(f[i] == o[i]);
                }
            }
            assert forall|i: int| 0 <= i < f.len() implies 1 <= (#[trigger] f[i]).id
                < self.next_refresh_id by {
                if i < o.len() {
                    assert(1 <= o[i].id < old(self).next_refresh_id);
                }
            }
            assert forall|i: int| 0 <= i < f.len() implies (#[trigger] f[i]).user_id >= 1 by {
                if i < o.len() {
                    assert(f[i] == o[i]);
                }
            }
        }
        id
    }

    /// Replaces, in place, the token string and expiry of the row that still
    /// carries `old_token` — compare-and-swap semantics, so a rotation that
    /// lost a race (the row is gone or already rotated) changes nothing and
    /// reports `false`.
    #[verifier::loop_isolation(false)]
    pub fn rotate_refresh(
        &mut self,
        old_token: &str,
        new_token: String,
        new_expires_at: i64,
    ) -> (r: bool)
        requires
            old(self).wf(),
            !has_refresh_token(old(self).refresh_tokens@, new_token@),
        ensures
            final(self).wf(),
            r == has_refresh_token(old(self).refresh_tokens@, old_token@),
            !r ==> store_unchanged(*old(self), *final(self)),
            r ==> exists|i: int|
                0 <= i < old(self).refresh_tokens@.len()
                    && (#[trigger] old(self).refresh_tokens@[i]).token@ == old_token@
                    && final(self).refresh_tokens@ == old(self).refresh_tokens@.update(
                    i,
                    (RefreshTokenRecord {
                        id: old(self).refresh_tokens@[i].id,
                        user_id: old(self).refresh_tokens@[i].user_id,
                        token: new_token,
                        expires_at: new_expires_at,
                    }),
                ),
            r ==> !has_refresh_token(final(self).refresh_tokens@, old_token@),
            r ==> has_refresh_token(final(self).refresh_tokens@, new_token@),
            users_unchanged(*old(self), *final(self)),
            access_unchanged(*old(self), *final(self)),
            api_keys_unchanged(*old(self), *final(self)),
            final(self).next_refresh_id == old(self).next_refresh_id,
    {
        let target = old_token.to_owned();
        let n = self.refresh_tokens.len();
        let mut i: usize = 0;
        while i < n
            invariant
                0 <= i <= n,
                n == self.refresh_tokens@.len(),
                target@ == old_token@,
                forall|k: int|
                    0 <= k < i ==> (#[trigger] self.refresh_tokens@[k]).token@ != old_token@,
                *self == *old(self),
            decreases n - i,
        {
            if self.refresh_tokens[i].token == target {
                let id = self.refresh_tokens[i].id;
                let user_id = self.refresh_tokens[i].user_id;
                let rec = RefreshTokenRecord {
                    id,
                    user_id,
                    token: new_token,
                    expires_at: new_expires_at,
                };
                *vec_index_mut(&mut self.refresh_tokens, i) = rec;
                proof {
                    let f = self.refresh_tokens@;
                    let o = old(self).refresh_tokens@;
                    let ii = i as int;
                    assert(o[ii].token@ == old_token@);
                    assert forall|p: int, q: int| #![trigger f[p], f[q]]
                        0 <= p < q < f.len() implies f[p].token@ != f[q].token@ by {
                        if p != ii && q != ii {
                            assert(f[p] == o[p] && f[q] == o[q]);
                        } else if p == ii {
                            assert(f[q] == o[q]);
                            assert(o[q].token@ != new_token@);
                        } else {
                            assert(f[p] == o[p]);
                            assert(o[p].token@ != new_token@);
                        }
                    }
                    assert forall|k: int| 0 <= k < f.len() implies (#[trigger] f[k]).token@
                        != old_token@ by {
                        if k == ii {
                            assert(f[k].token@ == new_token@);
                            assert(o[ii].token@ == old_token@);
                        } else {
                            assert(f[k] == o[k]);
                            if o[k].token@ == old_token@ {
                                if k < ii {
                                    assert(o[k].token@ != o[ii].token@);
                                } else {
                                    assert(o[ii].token@ != o[k].token@);
                                }
                            }
                        }
                    }
                    assert(f[ii].token@ == new_token@);
                    assert forall|k: int| 0 <= k < f.len() implies 1 <= (#[trigger] f[k]).id
                        < self.next_refresh_id by {
                        if k != ii {
                            assert(f[k] == o[k]);
                        }
                    }
                    assert forall|k: int| 0 <= k < f.len() implies (#[trigger] f[k]).user_id
                        >= 1 by {
                        if k != ii {
                            assert(f[k] == o[k]);
                        } else {
                            assert(f[k].user_id == o[ii].user_id);
                        }
                    }
                }
                return true;
            }
            i = i + 1;
        }
        false
    }

    /// Deletes the row that carries the given token string, if any.
    #[verifier::loop_isolation(false)]
    pub fn delete_refresh_token(&mut self, token: &str) -> (r: bool)
        requires
            old(self).wf(),
        ensures
            final(self).wf(),
            r == has_refresh_token(old(self).refresh_tokens@, token@),
            !r ==> store_unchanged(*old(self), *final(self)),
            r ==> exists|i: int|
                0 <= i < old(self).refresh_tokens@.len()
                    && (#[trigger] old(self).refresh_tokens@[i]).token@ == token@
                    && final(self).refresh_tokens@ == old(self).refresh_tokens@.remove(i),
            r ==> !has_refresh_token(final(self).refresh_tokens@, token@),
            users_unchanged(*old(self), *final(self)),
            access_unchanged(*old(self), *final(self)),
            api_keys_unchanged(*old(self), *final(self)),
            final(self).next_refresh_id == old(self).next_refresh_id,
    {
        let target = token.to_owned();
        let n = self.refresh_tokens.len();
        let mut i: usize = 0;
        while i < n
            invariant
                0 <= i <= n,
                n == self.refresh_tokens@.len(),
                target@ == token@,
                forall|k: int|
                    0 <= k < i ==> (#[trigger] self.refresh_tokens@[k]).token@ != token@,
                *self == *old(self),
            decreases n - i,
        {
            if self.refresh_tokens[i].token == target {
                self.refresh_tokens.remove(i);
                proof {
                    let f = self.refresh_tokens@;
                    let o = old(self).refresh_tokens@;
                    let ii = i as int;
                    assert(f == o.remove(ii));
                    assert forall|k: int| 0 <= k < f.len() implies #[trigger] f[k] == (if k < ii {
                        o[k]
                    } else {
                        o[k + 1]
                    }) by {}
                    assert forall|p: int, q: int| #![trigger f[p], f[q]]
                        0 <= p < q < f.len() implies f[p].token@ != f[q].token@ by {
                        let po = if p < ii { p } else { p + 1 };
                        let qo = if q < ii { q } else { q + 1 };
                        assert(f[p] == o[po] && f[q] == o[qo]);
                        assert(o[po].token@ != o[qo].token@);
                    }
                    assert forall|k: int| 0 <= k < f.len() implies (#[trigger] f[k]).token@
                        != token@ by {
                        let ko = if k < ii { k } else { k + 1 };
                        assert(f[k] == o[ko]);
                        if o[ko].token@ == token@ {
                            if ko < ii {
                                assert(o[ko].token@ != o[ii].token@);
                            } else {
                                assert(o[ii].token@ != o[ko].token@);
                            }
                        }
                    }
                    assert forall|k: int| 0 <= k < f.len() implies 1 <= (#[trigger] f[k]).id
                        < self.next_refresh_id by {
                        let ko = if k < ii { k } else { k + 1 };
                        assert(f[k] == o[ko]);
                    }
                    assert forall|k: int| 0 <= k < f.len() implies (#[trigger] f[k]).user_id
                        >= 1 by {
                        let ko = if k < ii { k } else { k + 1 };
                        assert(f[k] == o[ko]);
                    }
                }
                return true;
            }
            i = i + 1;
        }
        false
    }

    /// Deletes every refresh-token row owned by `user_id`. Deleting for a
    /// user with no rows is a no-op, so the operation is idempotent.
    #[verifier::loop_isolation(false)]
    pub fn delete_refresh_for_user(&mut self, user_id: i32)
        requires
            old(self).wf(),
        ensures
            final(self).wf(),
            final(self).refresh_tokens@ == old(self).refresh_tokens@.filter(
                |rec: RefreshTokenRecord| rec.user_id != user_id,
            ),
            users_unchanged(*old(self), *final(self)),
            access_unchanged(*old(self), *final(self)),
            api_keys_unchanged(*old(self), *final(self)),
            final(self).next_refresh_id == old(self).next_refresh_id,
    {
        let ghost pred = |rec: RefreshTokenRecord| rec.user_id != user_id;
        let mut kept: Vec<RefreshTokenRecord> = Vec::new();
        let n = self.refresh_tokens.len();
        let mut i: usize = 0;
        proof {
            reveal(Seq::filter);
            assert(self.refresh_tokens@.subrange(0, 0) =~= Seq::<RefreshTokenRecord>::empty());
        }
        while i < n
            invariant
                0 <= i <= n,
                n == self.refresh_tokens@.len(),
                *self == *old(self),
                kept@ == self.refresh_tokens@.subrange(0, i as int).filter(pred),
                pred == (|rec: RefreshTokenRecord| rec.user_id != user_id),
            decreases n - i,
        {
            let keep = self.refresh_tokens[i].user_id != user_id;
            if keep {
                kept.push(self.refresh_tokens[i].clone());
            }
            proof {
                reveal(Seq::filter);
                let s = self.refresh_tokens@;
                let t = s.subrange(0, i + 1);
                assert(t.drop_last() =~= s.subrange(0, i as int));
                assert(t.last() == s[i as int]);
            }
            i = i + 1;
        }
        proof {
            assert(self.refresh_tokens@.subrange(0, n as int) =~= self.refresh_tokens@);
        }
        self.refresh_tokens = kept;
        proof {
            let o = old(self).refresh_tokens@;
            let f = self.refresh_tokens@;
            lemma_filter_is_subset(o, pred);
            assert forall|p: int, q: int| #![trigger f[p], f[q]]
                0 <= p < q < f.len() implies f[p].token@ != f[q].token@ by {
                lemma_filter_distinct_tokens(o, pred, p, q);
            }
            assert forall|k: int| 0 <= k < f.len() implies 1 <= (#[trigger] f[k]).id
                < self.next_refresh_id by {
                assert(o.contains(f[k]));
                let w = choose|w: int| 0 <= w < o.len() && o[w] == f[k];
                assert(1 <= o[w].id < old(self).next_refresh_id);
            }
            assert forall|k: int| 0 <= k < f.len() implies (#[trigger] f[k]).user_id >= 1 by {
                assert(o.contains(f[k]));
                let w = choose|w: int| 0 <= w < o.len() && o[w] == f[k];
                assert(o[w].user_id >= 1);
            }
        }
    }

    /// Whether some access-token row carries the given token string.
    #[verifier::loop_isolation(false)]
    pub fn access_token_exists(&self, token: &str) -> (r: bool)
        ensures
            r == has_access_token(self.access_tokens@, token@),
    {
        let target = token.to_owned();
        let n = self.access_tokens.len();
        let mut i: usize = 0;
        while i < n
            invariant
                0 <= i <= n,
                n == self.access_tokens@.len(),
                target@ == token@,
                forall|k: int|
                    0 <= k < i ==> (#[trigger] self.access_tokens@[k]).token@ != token@,
            decreases n - i,
        {
            if self.access_tokens[i].token == target {
                return true;
            }
            i = i + 1;
        }
        false
    }

    /// Inserts an access-token row, handing out the next row id. The row
    /// exists to enforce uniqueness of the token string.
    pub fn insert_access(&mut self, user_id: i32, token: String, expires_at: i64) -> (id: i32)
        requires
            old(self).wf(),
            !has_access_token(old(self).access_tokens@, token@),
            old(self).next_access_id < i32::MAX,
        ensures
            final(self).wf(),
            id == old(self).next_access_id,
            final(self).access_tokens@ == old(self).access_tokens@.push(
                (AccessTokenRecord {
                    id: old(self).next_access_id,
                    user_id: user_id,
                    token: token,
                    expires_at: expires_at,
                }),
            ),
            final(self).next_access_id == old(self).next_access_id + 1,
            users_unchanged(*old(self), *final(self)),
            refresh_unchanged(*old(self), *final(self)),
            api_keys_unchanged(*old(self), *final(self)),
    {
        let id = self.next_access_id;
        let rec = AccessTokenRecord { id, user_id, token, expires_at };
        self.access_tokens.push(rec);
        self.next_access_id = id + 1;
        proof {
            let f = self.access_tokens@;
            let o = old(self).access_tokens@;
            assert forall|i: int, j: int| #![trigger f[i], f[j]]
                0 <= i < j < f.len() implies f[i].token@ != f[j].token@ by {
                if j < o.len() {
                    assert(o[i].token@ != o[j].token@);
                } else {
                    assert(f[i] == o[i]);
                }
            }
            assert forall|i: int| 0 <= i < f.len() implies 1 <= (#[trigger] f[i]).id
                < self.next_access_id by {
                if i < o.len() {
                    assert(1 <= o[i].id < old(self).next_access_id);
                }
            }
        }
        id
    }

    /// Whether some API-key row carries the given key string, active or not.
    #[verifier::loop_isolation(false)]
    pub fn api_key_exists(&self, key: &str) -> (r: bool)
        ensures
            r == has_api_key(self.api_keys@, key@),
    {
        let target = key.to_owned();
        let n = self.api_keys.len();
        let mut i: usize = 0;
        while i < n
            invariant
                0 <= i <= n,
                n == self.api_keys@.len(),
                target@ == key@,
                forall|k: int| 0 <= k < i ==> (#[trigger] self.api_keys@[k]).api_key@ != key@,
            decreases n - i,
        {
            if self.api_keys[i].api_key == target {
                return true;
            }
            i = i + 1;
        }
        false
    }

    /// Whether some *active* API-key row carries the given key string: a
    /// deactivated key never validates, however exactly it matches.
    #[verifier::loop_isolation(false)]
    pub fn find_active_api_key(&self, key: &str) -> (r: bool)
        ensures
            r == has_active_api_key(self.api_keys@, key@),
    {
        let target = key.to_owned();
        let n = self.api_keys.len();
        let mut i: usize = 0;
        while i < n
            invariant
                0 <= i <= n,
                n == self.api_keys@.len(),
                target@ == key@,
                forall|k: int|
                    0 <= k < i ==> !((#[trigger] self.api_keys@[k]).api_key@ == key@
                        && self.api_keys@[k].is_active),
            decreases n - i,
        {
            if self.api_keys[i].api_key == target && self.api_keys[i].is_active {
                return true;
            }
            i = i + 1;
        }
        false
    }

    /// Inserts an API-key row, handing out the next row id.
    pub fn insert_api_key(
        &mut self,
        api_key: String,
        client_name: String,
        contact_email: String,
        is_active: bool,
        now: i64,
    ) -> (id: i32)
        requires
            old(self).wf(),
            !has_api_key(old(self).api_keys@, api_key@),
            old(self).next_api_key_id < i32::MAX,
        ensures
            final(self).wf(),
            id == old(self).next_api_key_id,
            final(self).api_keys@ == old(self).api_keys@.push(
                (ApiKey {
                    id: old(self).next_api_key_id,
                    api_key: api_key,
                    client_name: client_name,
                    contact_email: contact_email,
                    is_active: is_active,
                    created_at: now,
                    updated_at: now,
                }),
            ),
            final(self).next_api_key_id == old(self).next_api_key_id + 1,
            users_unchanged(*old(self), *final(self)),
            refresh_unchanged(*old(self), *final(self)),
            access_unchanged(*old(self), *final(self)),
    {
        let id = self.next_api_key_id;
        let rec = ApiKey {
            id,
            api_key,
            client_name,
            contact_email,
            is_active,
            created_at: now,
            updated_at: now,
        };
        self.api_keys.push(rec);
        self.next_api_key_id = id + 1;
        proof {
            let f = self.api_keys@;
            let o = old(self).api_keys@;
            assert forall|i: int, j: int| #![trigger f[i], f[j]]
                0 <= i < j < f.len() implies f[i].api_key@ != f[j].api_key@ by {
                if j < o.len() {
                    assert(o[i].api_key@ != o[j].api_key@);
                } else {
                    assert(f[i] == o[i]);
                }
            }
            assert forall|i: int| 0 <= i < f.len() implies 1 <= (#[trigger] f[i]).id
                < self.next_api_key_id by {
                if i < o.len() {
                    assert(1 <= o[i].id < old(self).next_api_key_id);
                }
            }
        }
        id
    }

    /// Sets the active flag of the row that carries the given key string,
    /// touching its update timestamp; reports whether such a row existed.
    #[verifier::loop_isolation(false)]
    pub fn set_api_key_active(&mut self, key: &str, active: bool, now: i64) -> (r: bool)
        requires
            old(self).wf(),
        ensures
            final(self).wf(),
            r == has_api_key(old(self).api_keys@, key@),
            !r ==> store_unchanged(*old(self), *final(self)),
            r ==> exists|i: int|
                0 <= i < old(self).api_keys@.len()
                    && (#[trigger] old(self).api_keys@[i]).api_key@ == key@
                    && final(self).api_keys@ == old(self).api_keys@.update(
                    i,
                    (ApiKey {
                        id: old(self).api_keys@[i].id,
                        api_key: old(self).api_keys@[i].api_key,
                        client_name: old(self).api_keys@[i].client_name,
                        contact_email: old(self).api_keys@[i].contact_email,
                        is_active: active,
                        created_at: old(self).api_keys@[i].created_at,
                        updated_at: now,
                    }),
                ),
            users_unchanged(*old(self), *final(self)),
            refresh_unchanged(*old(self), *final(self)),
            access_unchanged(*old(self), *final(self)),
            final(self).next_api_key_id == old(self).next_api_key_id,
    {
        let target = key.to_owned();
        let n = self.api_keys.len();
        let mut i: usize = 0;
        while i < n
            invariant
                0 <= i <= n,
                n == self.api_keys@.len(),
                target@ == key@,
                forall|k: int| 0 <= k < i ==> (#[trigger] self.api_keys@[k]).api_key@ != key@,
                *self == *old(self),
            decreases n - i,
        {
            if self.api_keys[i].api_key == target {
                let updated = ApiKey {
                    id: self.api_keys[i].id,
                    api_key: self.api_keys[i].api_key.clone(),
                    client_name: self.api_keys[i].client_name.clone(),
                    contact_email: self.api_keys[i].contact_email.clone(),
                    is_active: active,
                    created_at: self.api_keys[i].created_at,
                    updated_at: now,
                };
                *vec_index_mut(&mut self.api_keys, i) = updated;
                proof {
                    let f = self.api_keys@;
                    let o = old(self).api_keys@;
                    let ii = i as int;
                    assert forall|p: int, q: int| #![trigger f[p], f[q]]
                        0 <= p < q < f.len() implies f[p].api_key@ != f[q].api_key@ by {
                        assert(f[ii].api_key@ == o[ii].api_key@);
                        if p != ii {
                            assert(f[p] == o[p]);
                        }
                        if q != ii {
                            assert(f[q] == o[q]);
                        }
                        assert(o[p].api_key@ != o[q].api_key@);
                    }
                    assert forall|k: int| 0 <= k < f.len() implies 1 <= (#[trigger] f[k]).id
                        < self.next_api_key_id by {
                        if k != ii {
                            assert(f[k] == o[k]);
                        }
                    }
                }
                return true;
            }
            i = i + 1;
        }
        false
    }
}

/// Filtering a sequence of refresh rows with pairwise-distinct tokens keeps
/// the tokens at any two positions distinct.
pub proof fn lemma_filter_distinct_tokens(
    s: Seq<RefreshTokenRecord>,
    pred: spec_fn(RefreshTokenRecord) -> bool,
    p: int,
    q: int,
)
    requires
        refresh_tokens_unique(s),
        0 <= p < q < s.filter(pred).len(),
    ensures
        s.filter(pred)[p].token@ != s.filter(pred)[q].token@,
    decreases s.len(),
{
    reveal(Seq::filter);
    if s.len() > 0 {
        let d = s.drop_last();
        let fd = d.filter(pred);
        assert forall|i: int, j: int| #![trigger d[i], d[j]]
            0 <= i < j < d.len() implies d[i].token@ != d[j].token@ by {
            assert(s[i].token@ != s[j].token@);
        }
        if pred(s.last()) {
            if q < fd.len() {
                lemma_filter_distinct_tokens(d, pred, p, q);
            } else {
                // q is the freshly pushed last element; p comes from the
                // filtered prefix, whose members all occur in d.
                lemma_filter_is_subset(d, pred);
                assert(d.contains(fd[p]));
                let w = choose|w: int| 0 <= w < d.len() && d[w] == fd[p];
                assert(s[w].token@ != s[s.len() - 1].token@);
            }
        } else {
            lemma_filter_distinct_tokens(d, pred, p, q);
        }
    }
}

} // verus!
