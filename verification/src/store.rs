use vstd::prelude::*;
use vstd::string::StringExecFns;

use crate::hashing::bcrypt_hash_shaped;
use crate::hashing::bcrypt_matches;
use crate::hashing::bcrypt_parses;
use crate::hashing::prepare_create;
use crate::hashing::verify_password;
use crate::models::Claims;
use crate::models::NewUser;
use crate::models::RepoError;
use crate::models::User;
use crate::models::clone_opt_string;
use crate::token::jwt_encode;
use crate::token::jwt_of;

verus! {

/// The fixed far-future expiry stamped into every login token.
pub const LOGIN_EXPIRY: u64 = 10000000000;

/// No two rows share an id.
pub open spec fn ids_unique(rows: Seq<User>) -> bool {
    forall|i: int, j: int|
        0 <= i < rows.len() && 0 <= j < rows.len() && i != j ==> (#[trigger] rows[i]).id != (
        #[trigger] rows[j]).id
}

/// A persisted row always carries a bcrypt hash — never plaintext, and
/// never a string that bcrypt would refuse to parse back.
pub open spec fn row_hashed(u: User) -> bool {
    u.password_hash matches Some(h) && bcrypt_hash_shaped(h@) && bcrypt_parses(h@)
}

/// Some row carries this id.
pub open spec fn contains_id(rows: Seq<User>, user_id: i32) -> bool {
    exists|i: int| 0 <= i < rows.len() && (#[trigger] rows[i]).id == user_id
}

/// The row's email is present and reads `e`.
pub open spec fn has_email(u: User, e: Seq<char>) -> bool {
    u.email matches Some(s) && s@ == e
}

/// `i` is the earliest row whose email reads `e`.
pub open spec fn first_email_match(rows: Seq<User>, e: Seq<char>, i: int) -> bool {
    &&& 0 <= i < rows.len()
    &&& has_email(rows[i], e)
    &&& forall|j: int| 0 <= j < i ==> !has_email(#[trigger] rows[j], e)
}

/// A record held by a well-formed store never holds plaintext: its
/// password hash has the bcrypt output shape, so it differs from any
/// submitted password that does not itself carry that shape. Together
/// with the contracts of `create_user` and `get_user_by_id` this says
/// that a created-then-fetched record stores a hash, not the password.
pub proof fn lemma_stored_record_hash_not_plaintext(s: UserStore, u: User, plain: Seq<char>)
    requires
        s.wf(),
        s@.contains(u),
        !bcrypt_hash_shaped(plain),
    ensures
        u.password_hash matches Some(h) && h@ != plain,
{
    let i = choose|i: int| 0 <= i < s@.len() && s@[i] == u;
    assert(row_hashed(s@[i]));
}

/// Under unique ids, the id alone pins the whole record: two stored
/// rows that share an id are the same row. A fetch by the id of a
/// freshly created record therefore yields that record, field for
/// field.
pub proof fn lemma_id_pins_record(rows: Seq<User>, u: User, v: User)
    requires
        ids_unique(rows),
        rows.contains(u),
        rows.contains(v),
        u.id == v.id,
    ensures
        u == v,
{
    let i = choose|i: int| 0 <= i < rows.len() && rows[i] == u;
    let j = choose|j: int| 0 <= j < rows.len() && rows[j] == v;
    assert(rows[i].id == rows[j].id);
}

/// Once the row carrying `user_id` is removed, no row carries that id
/// any longer: a fetch after a delete of the same id reports `NotFound`.
pub proof fn lemma_delete_removes_id(s0: Seq<User>, s1: Seq<User>, i: int, user_id: i32)
    requires
        ids_unique(s0),
        0 <= i < s0.len(),
        s0[i].id == user_id,
        s1 == s0.remove(i),
    ensures
        !contains_id(s1, user_id),
{
    s0.remove_ensures(i);
    assert forall|j: int| 0 <= j < s1.len() implies (#[trigger] s1[j]).id != user_id by {
        let j0: int = if j < i {
            j
        } else {
            j + 1
        };
        assert(s1[j] == s0[j0]);
    }
}

/// The decision step behind a login, on a row already looked up by
/// email: verifies the password against the stored hash and on a match
/// issues a signed token carrying the row's email as subject and the
/// fixed far-future expiry; on a mismatch it signals `NotFound`. The
/// stored hash must be one bcrypt parses — every hash the store writes
/// is — since verification aborts on any other.
pub fn authenticate_user(user: &User, password: &str, secret: &[u8]) -> (r: Result<
    String,
    RepoError,
>)
    requires
        user.email is Some,
        user.password_hash is Some,
        bcrypt_parses(user.password_hash.unwrap()@),
    ensures
        bcrypt_matches(password@, user.password_hash.unwrap()@) ==> (r matches Ok(t) && t@
            == jwt_of(user.email.unwrap()@, LOGIN_EXPIRY, secret@)),
        !bcrypt_matches(password@, user.password_hash.unwrap()@) ==> r == Err::<String, RepoError>(
            RepoError::NotFound,
        ),
{
    let stored_hash: &String = match &user.password_hash {
        Some(h) => h,
        None => unreached(),
    };
    let email: &String = match &user.email {
        Some(e) => e,
        None => unreached(),
    };
    if verify_password(password, stored_hash.as_str()) {
        let claims = Claims { sub: email.clone(), exp: LOGIN_EXPIRY };
        Ok(jwt_encode(&claims, secret))
    } else {
        Err(RepoError::NotFound)
    }
}

/// The model of the `user` relation: the stored rows in insertion order,
/// and the next value of the generated id column.
pub struct UserStore {
    pub rows: Vec<User>,
    pub next_id: i32,
}

impl View for UserStore {
    type V = Seq<User>;

    open spec fn view(&self) -> Seq<User> {
        self.rows@
    }
}

impl UserStore {
    /// The store's invariant: ids are unique and below the id counter,
    /// and every row holds a bcrypt hash where plaintext arrived.
    pub open spec fn wf(self) -> bool {
        &&& ids_unique(self.rows@)
        &&& forall|i: int| 0 <= i < self.rows@.len() ==> row_hashed(#[trigger] self.rows@[i])
        &&& forall|i: int|
            0 <= i < self.rows@.len() ==> (#[trigger] self.rows@[i]).id < self.next_id
        &&& 1 <= self.next_id
    }

    /// An empty relation, with the id column starting at 1.
    pub fn new() -> (r: UserStore)
        ensures
            r.wf(),
            r@ == Seq::<User>::empty(),
            r.next_id == 1,
    {
        UserStore { rows: Vec::new(), next_id: 1 }
    }

    /// Inserts a row built from `new_user`: the plaintext in
    /// `password_hash` is replaced by its bcrypt hash, the row receives
    /// the next generated id, and the stored record is returned. The
    /// caller must supply a password; the generated id is fresh, so the
    /// unique-key constraint cannot fire and the insert always succeeds.
    pub fn create_user(&mut self, new_user: &NewUser) -> (r: Result<User, RepoError>)
        requires
            old(self).wf(),
            new_user.password_hash is Some,
            old(self).next_id < i32::MAX,
        ensures
            final(self).wf(),
            r matches Ok(u) && final(self)@ == old(self)@.push(u),
            r matches Ok(u) && u.id == old(self).next_id,
            r matches Ok(u) && u.pseudo == new_user.pseudo && u.email == new_user.email && u.role
                == new_user.role,
            r matches Ok(u) && u.password_hash matches Some(h) && bcrypt_matches(
                new_user.password_hash.unwrap()@,
                h@,
            ) && bcrypt_hash_shaped(h@) && bcrypt_parses(h@),
            final(self).next_id == old(self).next_id + 1,
    {
        let hashed = prepare_create(new_user);
        let row = User {
            id: self.next_id,
            pseudo: hashed.pseudo,
            email: hashed.email,
            password_hash: hashed.password_hash,
            role: hashed.role,
        };
        let stored = row.clone_record();
        self.rows.push(row);
        self.next_id = self.next_id + 1;
        Ok(stored)
    }

    /// Returns the row carrying `user_id`, or `NotFound` if no row does.
    #[verifier::loop_isolation(false)]
    pub fn get_user_by_id(&self, user_id: i32) -> (r: Result<User, RepoError>)
        requires
            self.wf(),
        ensures
            contains_id(self@, user_id) ==> (r matches Ok(u) && self@.contains(u) && u.id
                == user_id),
            !contains_id(self@, user_id) ==> r == Err::<User, RepoError>(RepoError::NotFound),
    {
        let n = self.rows.len();
        let mut k: usize = 0;
        while k < n
            invariant
                n == self.rows@.len(),
                k <= n,
                forall|j: int| 0 <= j < k ==> (#[trigger] self.rows@[j]).id != user_id,
            decreases n - k,
        {
            if self.rows[k].id == user_id {
                return Ok(self.rows[k].clone_record());
            }
            k += 1;
        }
        Err(RepoError::NotFound)
    }

    /// Returns every row, unfiltered and in stored order.
    #[verifier::loop_isolation(false)]
    pub fn get_all_users(&self) -> (r: Result<Vec<User>, RepoError>)
        ensures
            r matches Ok(v) && v@ == self@,
    {
        let n = self.rows.len();
        let mut out: Vec<User> = Vec::new();
        let mut k: usize = 0;
        while k < n
            invariant
                n == self.rows@.len(),
                k <= n,
                out@ == self.rows@.subrange(0, k as int),
            decreases n - k,
        {
            out.push(self.rows[k].clone_record());
            proof {
                assert(out@ =~= self.rows@.subrange(0, k + 1 as int));
            }
            k += 1;
        }
        proof {
            assert(out@ =~= self.rows@);
        }
        Ok(out)
    }

    /// Deletes the row carrying `user_id` and returns how many rows went:
    /// 1 when the id was present, 0 when it was not. A missing id is not
    /// an error.
    #[verifier::loop_isolation(false)]
    pub fn delete_user(&mut self, user_id: i32) -> (r: Result<usize, RepoError>)
        requires
            old(self).wf(),
        ensures
            final(self).wf(),
            contains_id(old(self)@, user_id) ==> r == Ok::<usize, RepoError>(1usize) && (exists|
                i: int,
            |
                0 <= i < old(self)@.len() && (#[trigger] old(self)@[i]).id == user_id && final(
                self)@ == old(self)@.remove(i)),
            !contains_id(old(self)@, user_id) ==> r == Ok::<usize, RepoError>(0usize) && final(
            self)@ == old(self)@,
            final(self).next_id == old(self).next_id,
    {
        let n = self.rows.len();
        let mut k: usize = 0;
        while k < n
            invariant
                n == self.rows@.len(),
                k <= n,
                forall|j: int| 0 <= j < k ==> (#[trigger] self.rows@[j]).id != user_id,
                self == old(self),
            decreases n - k,
        {
            if self.rows[k].id == user_id {
                self.rows.remove(k);
                proof {
                    let s0 = old(self)@;
                    s0.remove_ensures(k as int);
                    assert(contains_id(s0, user_id)) by {
                        assert(0 <= k < s0.len() && s0[k as int].id == user_id);
                    }
                    assert(ids_unique(self@)) by {
                        assert forall|a: int, b: int|
                            0 <= a < self@.len() && 0 <= b < self@.len() && a != b implies (
                        #[trigger] self@[a]).id != (#[trigger] self@[b]).id by {
                            let a0: int = if a < k { a } else { a + 1 };
                            let b0: int = if b < k { b } else { b + 1 };
                            assert(self@[a] == s0[a0] && self@[b] == s0[b0]);
                        }
                    }
                    assert forall|i: int| 0 <= i < self@.len() implies row_hashed(
                        #[trigger] self@[i],
                    ) && (self@[i]).id < self.next_id by {
                        let i0: int = if i < k { i } else { i + 1 };
                        assert(self@[i] == s0[i0]);
                    }
                }
                return Ok(1);
            }
            k += 1;
        }
        Ok(0)
    }

    /// Overwrites every editable column of the row carrying `user.id`
    /// with the values in `user`, re-hashing `password_hash`
    /// unconditionally, and returns the stored record; `NotFound` if the
    /// id is absent, leaving the relation as it was. The caller must
    /// supply a password.
    #[verifier::loop_isolation(false)]
    pub fn update_user(&mut self, user: &User) -> (r: Result<User, RepoError>)
        requires
            old(self).wf(),
            user.password_hash is Some,
        ensures
            final(self).wf(),
            !contains_id(old(self)@, user.id) ==> r == Err::<User, RepoError>(RepoError::NotFound)
                && final(self)@ == old(self)@,
            contains_id(old(self)@, user.id) ==> (r matches Ok(u) && (exists|i: int|
                0 <= i < old(self)@.len() && (#[trigger] old(self)@[i]).id == user.id && final(
                self)@ == old(self)@.update(i, u))),
            r matches Ok(u) ==> u.id == user.id && u.pseudo == user.pseudo && u.email == user.email
                && u.role == user.role,
            r matches Ok(u) ==> u.password_hash matches Some(h) && bcrypt_matches(
                user.password_hash.unwrap()@,
                h@,
            ) && bcrypt_hash_shaped(h@) && bcrypt_parses(h@),
            final(self).next_id == old(self).next_id,
    {
        let n = self.rows.len();
        let mut k: usize = 0;
        while k < n
            invariant
                n == self.rows@.len(),
                k <= n,
                forall|j: int| 0 <= j < k ==> (#[trigger] self.rows@[j]).id != user.id,
                self == old(self),
            decreases n - k,
        {
            if self.rows[k].id == user.id {
                let fresh = NewUser {
                    pseudo: clone_opt_string(&user.pseudo),
                    email: clone_opt_string(&user.email),
                    password_hash: clone_opt_string(&user.password_hash),
                    role: clone_opt_string(&user.role),
                };
                let hashed = prepare_create(&fresh);
                let row = User {
                    id: user.id,
                    pseudo: hashed.pseudo,
                    email: hashed.email,
                    password_hash: hashed.password_hash,
                    role: hashed.role,
                };
                let stored = row.clone_record();
                self.rows[k] = row;
                return Ok(stored);
            }
            k += 1;
        }
        Err(RepoError::NotFound)
    }

    /// Looks the email up, verifies the password against the first
    /// matching row's stored hash, and on a match issues a signed token
    /// carrying the user's email as subject and the fixed far-future
    /// expiry. An unknown email and a wrong password signal the same
    /// error, so a caller cannot tell which of the two it was.
    #[verifier::loop_isolation(false)]
    pub fn login(&self, email: &str, password: &str, secret: &[u8]) -> (r: Result<
        String,
        RepoError,
    >)
        requires
            self.wf(),
        ensures
            (forall|i: int| 0 <= i < self@.len() ==> !has_email(#[trigger] self@[i], email@)) ==> r
                == Err::<String, RepoError>(RepoError::NotFound),
            forall|i: int|
                #[trigger] first_email_match(self@, email@, i) && !bcrypt_matches(
                    password@,
                    self@[i].password_hash.unwrap()@,
                ) ==> r == Err::<String, RepoError>(RepoError::NotFound),
            forall|i: int|
                #[trigger] first_email_match(self@, email@, i) && bcrypt_matches(
                    password@,
                    self@[i].password_hash.unwrap()@,
                ) ==> (r matches Ok(t) && t@ == jwt_of(email@, LOGIN_EXPIRY, secret@)),
            r is Err ==> r == Err::<String, RepoError>(RepoError::NotFound),
    {
        let email_string = String::from_str(email);
        let n = self.rows.len();
        let mut k: usize = 0;
        while k < n
            invariant
                n == self.rows@.len(),
                k <= n,
                email_string@ == email@,
                forall|j: int| 0 <= j < k ==> !has_email(#[trigger] self.rows@[j], email@),
                self.wf(),
            decreases n - k,
        {
            let matched: bool = match &self.rows[k].email {
                Some(s) => s.eq(&email_string),
                None => false,
            };
            if matched {
                let outcome = authenticate_user(&self.rows[k], password, secret);
                proof {
                    assert(first_email_match(self@, email@, k as int));
                }
                return outcome;
            }
            k += 1;
        }
        Err(RepoError::NotFound)
    }
}

} // verus!
