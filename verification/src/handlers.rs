use vstd::prelude::*;

use crate::hashing::bcrypt_matches;
use crate::models::NewUser;
use crate::models::RepoError;
use crate::models::User;
use crate::models::clone_opt_string;
use crate::store::UserStore;
use crate::store::contains_id;
use crate::store::row_hashed;

verus! {

/// What a partial update yields for one column: the request's value
/// where one was supplied, the stored one otherwise.
pub open spec fn merged_field(existing: Option<String>, patch: Option<String>) -> Option<String> {
    if patch is Some {
        patch
    } else {
        existing
    }
}

/// Overlays the supplied fields of `patch` onto `existing`: each column
/// takes the request's value where the request carried one and keeps its
/// stored value otherwise. The id is not editable.
pub fn merge_user_update(existing: &User, patch: &NewUser) -> (r: User)
    ensures
        r.id == existing.id,
        r.pseudo == merged_field(existing.pseudo, patch.pseudo),
        r.email == merged_field(existing.email, patch.email),
        r.password_hash == merged_field(existing.password_hash, patch.password_hash),
        r.role == merged_field(existing.role, patch.role),
{
    User {
        id: existing.id,
        pseudo: merge_field(&existing.pseudo, &patch.pseudo),
        email: merge_field(&existing.email, &patch.email),
        password_hash: merge_field(&existing.password_hash, &patch.password_hash),
        role: merge_field(&existing.role, &patch.role),
    }
}

/// One column of the merge: the patch value when present, else the
/// stored one.
fn merge_field(existing: &Option<String>, patch: &Option<String>) -> (r: Option<String>)
    ensures
        r == merged_field(*existing, *patch),
{
    match patch {
        Some(p) => Some(p.clone()),
        None => clone_opt_string(existing),
    }
}

/// The whole update flow behind the update endpoint: fetch the stored
/// row, overlay the supplied fields, and overwrite the row, re-hashing
/// the merged `password_hash` column. A missing id is answered with
/// `NotFound` and leaves the relation untouched; it never brings the
/// task down.
#[verifier::rlimit(30)]
pub fn update_request(store: &mut UserStore, user_id: i32, patch: &NewUser) -> (r: Result<
    User,
    RepoError,
>)
    requires
        old(store).wf(),
    ensures
        final(store).wf(),
        !contains_id(old(store)@, user_id) ==> r == Err::<User, RepoError>(RepoError::NotFound)
            && final(store)@ == old(store)@,
        contains_id(old(store)@, user_id) ==> (r matches Ok(u) && (exists|i: int|
            {
                &&& 0 <= i < old(store)@.len()
                &&& (#[trigger] old(store)@[i]).id == user_id
                &&& final(store)@ == old(store)@.update(i, u)
                &&& u.id == user_id
                &&& u.pseudo == merged_field(old(store)@[i].pseudo, patch.pseudo)
                &&& u.email == merged_field(old(store)@[i].email, patch.email)
                &&& u.role == merged_field(old(store)@[i].role, patch.role)
                &&& u.password_hash matches Some(h) && bcrypt_matches(
                    merged_field(old(store)@[i].password_hash, patch.password_hash).unwrap()@,
                    h@,
                )
            })),
        final(store).next_id == old(store).next_id,
    {
    let existing = match store.get_user_by_id(user_id) {
        Ok(u) => u,
        Err(e) => {
            return Err(e);
        },
    };
    proof {
        let j = choose|j: int| 0 <= j < store@.len() && store@[j] == existing;
        assert(row_hashed(store@[j]));
    }
    let merged = merge_user_update(&existing, patch);
    let updated = store.update_user(&merged);
    proof {
        if contains_id(old(store)@, user_id) {
            let u = updated.unwrap();
            let i = choose|i: int|
                0 <= i < old(store)@.len() && (#[trigger] old(store)@[i]).id == merged.id && store@
                    == old(store)@.update(i, u);
            let j = choose|j: int| 0 <= j < old(store)@.len() && old(store)@[j] == existing;
            assert(old(store)@[i].id == old(store)@[j].id);
            assert(old(store)@[i] == existing);
        }
    }
    updated
}

/// Status mapping of the fetch endpoint: 200 with the record, 404 when
/// the id is unknown.
pub fn get_user_status(r: &Result<User, RepoError>) -> (code: u16)
    ensures
        r is Ok ==> code == 200,
        r is Err ==> code == 404,
{
    match r {
        Ok(_) => 200,
        Err(_) => 404,
    }
}

/// Status mapping of the create endpoint: 200 with the stored record,
/// 500 when the insert failed.
pub fn create_user_status(r: &Result<User, RepoError>) -> (code: u16)
    ensures
        r is Ok ==> code == 200,
        r is Err ==> code == 500,
{
    match r {
        Ok(_) => 200,
        Err(_) => 500,
    }
}

/// Status mapping of the list endpoint: 200 with the records, 500 when
/// the load failed.
pub fn list_users_status(r: &Result<Vec<User>, RepoError>) -> (code: u16)
    ensures
        r is Ok ==> code == 200,
        r is Err ==> code == 500,
{
    match r {
        Ok(_) => 200,
        Err(_) => 500,
    }
}

/// Status mapping of the delete endpoint: 200 with the count, 500 when
/// the delete failed.
pub fn delete_user_status(r: &Result<usize, RepoError>) -> (code: u16)
    ensures
        r is Ok ==> code == 200,
        r is Err ==> code == 500,
{
    match r {
        Ok(_) => 200,
        Err(_) => 500,
    }
}

/// Status mapping of the update endpoint: 200 with the record, 404 when
/// the id does not exist. A missing id is answered, never crashed on.
pub fn update_user_status(r: &Result<User, RepoError>) -> (code: u16)
    ensures
        r is Ok ==> code == 200,
        r is Err ==> code == 404,
{
    match r {
        Ok(_) => 200,
        Err(_) => 404,
    }
}

} // verus!
