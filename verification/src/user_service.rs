//! The user registry: registration with password rules and unique usernames,
//! lookup, credential checking and listing. Usernames are unique by
//! invariant; listings come back ordered by username, byte-wise, as std
//! orders strings.

use vstd::prelude::*;
use vstd::multiset::Multiset;

use crate::config::Config;
use crate::errors::AppError;
use crate::errors::AppResult;
use crate::ids::fresh_id;
use crate::models::User;
use crate::models::UserResponse;
use crate::models::byte_len;
use crate::password::argon2_matches;
use crate::password::argon2_wf;
use crate::password::hash_password;
use crate::password::password_matches;

verus! {

broadcast use {vstd::seq_lib::group_to_multiset_ensures, vstd::multiset::group_multiset_axioms};

/// Byte-wise lexicographic order, the order std gives strings.
pub open spec fn bytes_le(a: Seq<u8>, b: Seq<u8>) -> bool
    decreases a.len(),
{
    if a.len() == 0 {
        true
    } else if b.len() == 0 {
        false
    } else if a[0] < b[0] {
        true
    } else if a[0] > b[0] {
        false
    } else {
        bytes_le(a.drop_first(), b.drop_first())
    }
}

/// String order: byte-wise lexicographic on the UTF-8 encodings.
pub open spec fn str_le(a: Seq<char>, b: Seq<char>) -> bool {
    bytes_le(vstd::utf8::encode_utf8(a), vstd::utf8::encode_utf8(b))
}

/// The order is total.
pub proof fn lemma_bytes_le_total(a: Seq<u8>, b: Seq<u8>)
    ensures
        bytes_le(a, b) || bytes_le(b, a),
    decreases a.len(),
{
    if a.len() > 0 && b.len() > 0 && a[0] == b[0] {
        lemma_bytes_le_total(a.drop_first(), b.drop_first());
    }
}

/// The order is transitive.
pub proof fn lemma_bytes_le_trans(a: Seq<u8>, b: Seq<u8>, c: Seq<u8>)
    requires
        bytes_le(a, b),
        bytes_le(b, c),
    ensures
        bytes_le(a, c),
    decreases a.len(),
{
    if a.len() > 0 && b.len() > 0 && c.len() > 0 && a[0] == b[0] && b[0] == c[0] {
        lemma_bytes_le_trans(a.drop_first(), b.drop_first(), c.drop_first());
    }
}

/// Whether `a` comes at or before `b` in username order.
fn leq_str(a: &str, b: &str) -> (r: bool)
    ensures
        r == str_le(a@, b@),
{
    let ab = a.as_bytes();
    let bb = b.as_bytes();
    let an = ab.len();
    let bn = bb.len();
    let mut i: usize = 0;
    proof {
        assert(ab@.skip(0) =~= ab@);
        assert(bb@.skip(0) =~= bb@);
    }
    while i < an && i < bn
        invariant
            an == ab@.len(),
            bn == bb@.len(),
            i <= an,
            i <= bn,
            ab@ == vstd::utf8::encode_utf8(a@),
            bb@ == vstd::utf8::encode_utf8(b@),
            bytes_le(ab@, bb@) == bytes_le(ab@.skip(i as int), bb@.skip(i as int)),
        decreases an - i,
    {
        proof {
            assert(ab@.skip(i as int)[0] == ab@[i as int]);
            assert(bb@.skip(i as int)[0] == bb@[i as int]);
            assert(ab@.skip(i as int).drop_first() =~= ab@.skip(i + 1));
            assert(bb@.skip(i as int).drop_first() =~= bb@.skip(i + 1));
        }
        let x = ab[i];
        let y = bb[i];
        if x < y {
            return true;
        }
        if x > y {
            return false;
        }
        i += 1;
    }
    proof {
        if i == an {
            assert(ab@.skip(i as int).len() == 0);
        } else {
            assert(bb@.skip(i as int).len() == 0);
            assert(ab@.skip(i as int).len() > 0);
        }
    }
    i == an
}

/// Usernames are pairwise distinct.
pub open spec fn usernames_unique(s: Seq<User>) -> bool {
    forall|i: int, j: int| 0 <= i < j < s.len() ==> s[i].username@ != s[j].username@
}

/// Some user carries this name.
pub open spec fn has_username(s: Seq<User>, name: Seq<char>) -> bool {
    exists|i: int| 0 <= i < s.len() && s[i].username@ == name
}

/// The position of the user carrying this name.
pub open spec fn index_of_username(s: Seq<User>, name: Seq<char>) -> int {
    choose|i: int| 0 <= i < s.len() && s[i].username@ == name
}

/// The user carrying this name.
pub open spec fn user_named(s: Seq<User>, name: Seq<char>) -> User {
    s[index_of_username(s, name)]
}

/// A user as reported outward: everything but the hash.
pub open spec fn response_of(u: User) -> UserResponse {
    UserResponse { id: u.id, username: u.username, created_at: u.created_at, updated_at: u.updated_at }
}

/// All users as reported outward, in registry order.
pub open spec fn responses_of(s: Seq<User>) -> Seq<UserResponse> {
    s.map_values(|u: User| response_of(u))
}

/// Ordered by username, byte-wise ascending.
pub open spec fn names_sorted(s: Seq<UserResponse>) -> bool {
    forall|i: int, j: int| 0 <= i < j < s.len() ==> str_le(s[i].username@, s[j].username@)
}

/// The window the given page of the given size cuts out of a listing.
pub open spec fn page_slice(full: Seq<UserResponse>, page: u32, limit: u32) -> Seq<UserResponse>
    recommends
        page >= 1,
{
    let start0 = (page - 1) * (limit as int);
    let start = if start0 > full.len() {
        full.len() as int
    } else {
        start0
    };
    let end = if start + limit > full.len() {
        full.len() as int
    } else {
        start + limit
    };
    full.subrange(start, end)
}

/// The user registry: in-memory, with unique usernames and salted password
/// hashes.
pub struct UserService {
    min_password_length: usize,
    users: Vec<User>,
}

impl UserService {
    /// The registered users, in registration order.
    pub closed spec fn users_spec(&self) -> Seq<User> {
        self.users@
    }

    /// The configured minimum password byte length.
    pub closed spec fn min_password_spec(&self) -> usize {
        self.min_password_length
    }

    /// The registry's invariant: usernames are pairwise distinct.
    pub open spec fn wf(&self) -> bool {
        usernames_unique(self.users_spec())
    }

    /// A fresh, empty registry with the configured password rule.
    pub fn new(config: &Config) -> (r: Self)
        ensures
            r.wf(),
            r.users_spec() == Seq::<User>::empty(),
            r.min_password_spec() == config.user.min_password_length,
    {
        let r = UserService {
            min_password_length: config.user.min_password_length,
            users: Vec::new(),
        };
        proof {
            assert(r.users_spec() =~= Seq::<User>::empty());
        }
        r
    }

    /// The position of the user named `username`, if any.
    fn find_user_index(&self, username: &str) -> (r: Option<usize>)
        requires
            self.wf(),
        ensures
            r matches Some(i) ==> has_username(self.users_spec(), username@) && i
                == index_of_username(self.users_spec(), username@) && i < self.users_spec().len(),
            r is None ==> !has_username(self.users_spec(), username@),
    {
        let owned = username.to_owned();
        let n = self.users.len();
        let mut i: usize = 0;
        while i < n
            invariant
                n == self.users@.len(),
                i <= n,
                self.wf(),
                owned@ == username@,
                forall|j: int| 0 <= j < i ==> self.users@[j].username@ != username@,
            decreases n - i,
        {
            if self.users[i].username == owned {
                proof {
                    assert(self.users@[i as int].username@ == username@);
                    let j = index_of_username(self.users@, username@);
                    assert(0 <= j < self.users@.len() && self.users@[j].username@ == username@);
                    assert(j == i as int);
                }
                return Some(i);
            }
            i += 1;
        }
        None
    }

    /// Add a user record with an already-computed password hash. Succeeds
    /// exactly when the username is free; the record is appended with a
    /// server-generated id and no timestamps.
    pub fn add_user(&mut self, username: String, password_hash: String) -> (r: AppResult<User>)
        requires
            old(self).wf(),
        ensures
            final(self).wf(),
            final(self).min_password_spec() == old(self).min_password_spec(),
            has_username(old(self).users_spec(), username@) ==> final(self).users_spec() == old(
                self,
            ).users_spec() && (r matches Err(e) && e matches AppError::UserAlreadyExists(n) && n@
                == username@),
            !has_username(old(self).users_spec(), username@) ==> (r matches Ok(u) && u.username
                == username && u.password_hash == password_hash && u.created_at is None
                && u.updated_at is None && final(self).users_spec() == old(self).users_spec().push(
                u,
            )),
    {
        match self.find_user_index(username.as_str()) {
            Some(_) => Err(AppError::UserAlreadyExists(username)),
            None => {
                let ghost snap = self.users@;
                let user = User {
                    id: fresh_id(),
                    username,
                    password_hash,
                    created_at: None,
                    updated_at: None,
                };
                self.users.push(user.clone());
                proof {
                    assert forall|a: int, b: int|
                        0 <= a < b < self.users@.len() implies self.users@[a].username@
                        != self.users@[b].username@ by {
                        if b < snap.len() {
                            assert(self.users@[a] == snap[a] && self.users@[b] == snap[b]);
                        } else {
                            assert(self.users@[a] == snap[a]);
                            assert(self.users@[b] == user);
                        }
                    }
                }
                Ok(user)
            },
        }
    }

    /// Register a user: the password must reach the configured minimum byte
    /// length and the username must be free; the password is then salted and
    /// hashed. Fails with an internal error only if the hashing call refuses.
    pub fn register_user(&mut self, username: String, password: String) -> (r: AppResult<User>)
        requires
            old(self).wf(),
        ensures
            final(self).wf(),
            final(self).min_password_spec() == old(self).min_password_spec(),
            byte_len(password@) < old(self).min_password_spec() ==> final(self).users_spec() == old(
                self,
            ).users_spec() && (r matches Err(e) && e matches AppError::ValidationError(m) && m@
                == "Password too short"@),
            byte_len(password@) >= old(self).min_password_spec() && has_username(
                old(self).users_spec(),
                username@,
            ) ==> final(self).users_spec() == old(self).users_spec() && (r matches Err(e)
                && e matches AppError::UserAlreadyExists(n) && n@ == username@),
            byte_len(password@) >= old(self).min_password_spec() && !has_username(
                old(self).users_spec(),
                username@,
            ) ==> ((r matches Ok(u) && u.username@ == username@ && argon2_wf(u.password_hash@)
                && argon2_matches(u.password_hash@, password@) && u.created_at is None
                && u.updated_at is None && final(self).users_spec() == old(self).users_spec().push(
                u,
            )) || (final(self).users_spec() == old(self).users_spec() && (r matches Err(e)
                && e matches AppError::InternalError(_)))),
    {
        let pw_len = password.as_str().as_bytes().len();
        proof {
            assert(pw_len == byte_len(password@));
        }
        if pw_len < self.min_password_length {
            return Err(AppError::ValidationError("Password too short".to_owned()));
        }
        if self.find_user_index(username.as_str()).is_some() {
            return Err(AppError::UserAlreadyExists(username));
        }
        let hash = match hash_password(password.as_str()) {
            Some(h) => h,
            None => {
                return Err(AppError::InternalError("Password hashing failed".to_owned()));
            },
        };
        self.add_user(username, hash)
    }

    /// How many users are registered.
    pub fn user_count(&self) -> (n: usize)
        ensures
            n == self.users_spec().len(),
    {
        self.users.len()
    }

    /// Look a user up by name.
    pub fn get_user_by_username(&self, username: &str) -> (r: AppResult<User>)
        requires
            self.wf(),
        ensures
            has_username(self.users_spec(), username@) ==> r == Ok::<User, AppError>(
                user_named(self.users_spec(), username@),
            ),
            !has_username(self.users_spec(), username@) ==> (r matches Err(e) && e matches
                AppError::ValidationError(m) && m@ == "User not found"@),
    {
        match self.find_user_index(username) {
            Some(i) => Ok(self.users[i].clone()),
            None => Err(AppError::ValidationError("User not found".to_owned())),
        }
    }

    /// Check a password against a user's stored hash. Reports whether it
    /// matches; a malformed stored hash is an internal error.
    pub fn verify_password(&self, user: &User, password: &str) -> (r: AppResult<bool>)
        ensures
            r is Ok <==> argon2_wf(user.password_hash@),
            r matches Ok(b) ==> b == argon2_matches(user.password_hash@, password@),
            r matches Err(e) ==> e matches AppError::InternalError(_),
    {
        match password_matches(user.password_hash.as_str(), password) {
            Some(b) => Ok(b),
            None => Err(AppError::InternalError("Invalid hash format".to_owned())),
        }
    }

    fn sorted_responses(&self) -> (r: Vec<UserResponse>)
        ensures
            r@.to_multiset() == responses_of(self.users_spec()).to_multiset(),
            r@.len() == self.users_spec().len(),
            names_sorted(r@),
    {
        let n = self.users.len();
        let mut acc: Vec<UserResponse> = Vec::new();
        let mut i: usize = 0;
        proof {
            assert(acc@ =~= responses_of(self.users@.take(0)));
        }
        while i < n
            invariant
                n == self.users@.len(),
                i <= n,
                acc@ == responses_of(self.users@.take(i as int)),
            decreases n - i,
        {
            let u = &self.users[i];
            acc.push(
                UserResponse {
                    id: u.id,
                    username: u.username.clone(),
                    created_at: u.created_at,
                    updated_at: u.updated_at,
                },
            );
            proof {
                assert(acc@ =~= responses_of(self.users@.take(i + 1)));
            }
            i += 1;
        }
        proof {
            assert(self.users@.take(n as int) =~= self.users@);
        }
        sort_users_by_name(acc)
    }

    /// Every user as reported outward, ordered by username.
    pub fn list_users(&self) -> (r: AppResult<Vec<UserResponse>>)
        ensures
            r is Ok,
            r matches Ok(v) ==> v@.to_multiset() == responses_of(self.users_spec()).to_multiset()
                && v@.len() == self.users_spec().len() && names_sorted(v@),
    {
        Ok(self.sorted_responses())
    }

    /// One page of the username-ordered listing.
    pub fn list_users_paginated(&self, page: u32, limit: u32) -> (r: Vec<UserResponse>)
        requires
            page >= 1,
        ensures
            exists|full: Seq<UserResponse>|
                full.to_multiset() == responses_of(self.users_spec()).to_multiset() && full.len()
                    == self.users_spec().len() && names_sorted(full) && r@ == page_slice(
                    full,
                    page,
                    limit,
                ),
    {
        let full = self.sorted_responses();
        let len = full.len();
        proof {
            vstd::arithmetic::mul::lemma_mul_upper_bound(
                (page - 1) as int,
                0xffffffff as int,
                limit as int,
                0xffffffff as int,
            );
        }
        let start64 = ((page - 1) as u64) * (limit as u64);
        let start = if start64 > (len as u64) {
            len
        } else {
            start64 as usize
        };
        let end = if len - start > (limit as usize) {
            start + (limit as usize)
        } else {
            len
        };
        let mut out: Vec<UserResponse> = Vec::new();
        let mut k: usize = start;
        proof {
            assert(out@ =~= full@.subrange(start as int, start as int));
        }
        while k < end
            invariant
                start <= k <= end <= full@.len(),
                out@ == full@.subrange(start as int, k as int),
            decreases end - k,
        {
            out.push(full[k].clone());
            proof {
                assert(out@ =~= full@.subrange(start as int, k + 1));
            }
            k += 1;
        }
        proof {
            assert(out@ == page_slice(full@, page, limit));
        }
        out
    }

    /// Look a user up by id. The persistent registry behind this is absent;
    /// the lookup reports the id as unknown.
    pub fn get_user_by_id(&self, id: u128) -> (r: AppResult<User>)
        ensures
            r == Err::<User, AppError>(AppError::UserNotFound(id)),
    {
        Err(AppError::UserNotFound(id))
    }

    /// Update a user record. The persistent registry behind this is absent;
    /// the update reports the id as unknown.
    pub fn update_user(&self, id: u128) -> (r: AppResult<User>)
        ensures
            r == Err::<User, AppError>(AppError::UserNotFound(id)),
    {
        Err(AppError::UserNotFound(id))
    }

    /// Change a user's password after checking the old one. The id lookup
    /// behind this is absent, so the id is reported as unknown.
    pub fn update_password(&self, id: u128, old_password: &str) -> (r: AppResult<()>)
        ensures
            r == Err::<(), AppError>(AppError::UserNotFound(id)),
    {
        let user = match self.get_user_by_id(id) {
            Ok(u) => u,
            Err(e) => {
                return Err(e);
            },
        };
        match self.verify_password(&user, old_password) {
            Ok(_) => Ok(()),
            Err(e) => Err(e),
        }
    }

    /// Remove a user. The persistent registry behind this is absent; the
    /// removal reports the id as unknown.
    pub fn delete_user(&self, id: u128) -> (r: AppResult<()>)
        ensures
            r == Err::<(), AppError>(AppError::UserNotFound(id)),
    {
        Err(AppError::UserNotFound(id))
    }
}

/// The given listing reordered by username, byte-wise ascending.
fn sort_users_by_name(v: Vec<UserResponse>) -> (r: Vec<UserResponse>)
    ensures
        r@.to_multiset() == v@.to_multiset(),
        r@.len() == v@.len(),
        names_sorted(r@),
{
    let mut rest = v;
    let mut out: Vec<UserResponse> = Vec::new();
    proof {
        assert(out@.to_multiset().add(rest@.to_multiset()) =~= rest@.to_multiset());
    }
    while rest.len() > 0
        invariant
            out@.to_multiset().add(rest@.to_multiset()) == v@.to_multiset(),
            out@.len() + rest@.len() == v@.len(),
            names_sorted(out@),
            forall|a: int, b: int|
                0 <= a < out@.len() && 0 <= b < rest@.len() ==> str_le(
                    out@[a].username@,
                    rest@[b].username@,
                ),
        decreases rest@.len(),
    {
        let mut m: usize = 0;
        let mut k: usize = 1;
        proof {
            lemma_bytes_le_total(
                vstd::utf8::encode_utf8(rest@[0].username@),
                vstd::utf8::encode_utf8(rest@[0].username@),
            );
        }
        while k < rest.len()
            invariant
                rest@.len() > 0,
                m < k,
                k <= rest@.len(),
                forall|j: int|
                    0 <= j < k ==> str_le(rest@[m as int].username@, rest@[j].username@),
            decreases rest@.len() - k,
        {
            proof {
                lemma_bytes_le_total(
                    vstd::utf8::encode_utf8(rest@[k as int].username@),
                    vstd::utf8::encode_utf8(rest@[m as int].username@),
                );
            }
            if leq_str(rest[k].username.as_str(), rest[m].username.as_str()) {
                proof {
                    assert forall|j: int| 0 <= j < k + 1 implies str_le(
                        rest@[k as int].username@,
                        rest@[j].username@,
                    ) by {
                        if j < k {
                            lemma_bytes_le_trans(
                                vstd::utf8::encode_utf8(rest@[k as int].username@),
                                vstd::utf8::encode_utf8(rest@[m as int].username@),
                                vstd::utf8::encode_utf8(rest@[j].username@),
                            );
                        } else {
                            lemma_bytes_le_total(
                                vstd::utf8::encode_utf8(rest@[k as int].username@),
                                vstd::utf8::encode_utf8(rest@[k as int].username@),
                            );
                        }
                    }
                }
                m = k;
            }
            k += 1;
        }
        proof {
            lemma_bytes_le_total(
                vstd::utf8::encode_utf8(rest@[m as int].username@),
                vstd::utf8::encode_utf8(rest@[m as int].username@),
            );
        }
        let ghost pre_out = out@;
        let ghost pre_rest = rest@;
        let e = rest.remove(m);
        out.push(e);
        proof {
            assert(pre_rest.to_multiset().count(e) > 0) by {
                assert(pre_rest[m as int] == e);
                assert(pre_rest.contains(e));
            }
            assert(out@.to_multiset() =~= pre_out.to_multiset().insert(e));
            assert(rest@.to_multiset() =~= pre_rest.to_multiset().remove(e));
            assert(out@.to_multiset().add(rest@.to_multiset()) =~= pre_out.to_multiset().add(
                pre_rest.to_multiset(),
            ));
        }
    }
    proof {
        assert(rest@.to_multiset() =~= Multiset::<UserResponse>::empty()) by {
            assert forall|x: UserResponse| rest@.to_multiset().count(x) == 0 by {
                if rest@.to_multiset().count(x) > 0 {
                    assert(rest@.contains(x));
                }
            }
        }
        assert(out@.to_multiset() =~= v@.to_multiset());
    }
    out
}

} // verus!
