use vstd::prelude::*;

use crate::models::NewUser;
use crate::models::clone_opt_string;

verus! {

/// What `bcrypt::verify(password, hash)` returns when it succeeds:
/// whether `hash` is a bcrypt hash of `password`. The result is computed
/// from the two arguments alone (the salt is read back out of `hash`),
/// so it may be given a name.
pub uninterp spec fn bcrypt_matches(password: Seq<char>, hash: Seq<char>) -> bool;

/// Whether `bcrypt::verify` accepts the string as a hash at all — 60
/// ASCII characters in the `$` layout, a known version tag, a cost it
/// can parse in range, valid salt and digest base64 — rather than
/// failing on it before any comparison. The outcome is computed from
/// the string alone, so it may be given a name. Every string
/// `bcrypt::hash` emits satisfies it.
pub uninterp spec fn bcrypt_parses(hash: Seq<char>) -> bool;

/// The shape of every string `bcrypt::hash` produces: exactly 60
/// characters, opening with the `$2b$` version tag.
pub open spec fn bcrypt_hash_shaped(s: Seq<char>) -> bool {
    &&& s.len() == 60
    &&& s[0] == '$'
    &&& s[1] == '2'
    &&& s[2] == 'b'
    &&& s[3] == '$'
}

/// Relies on `bcrypt::hash` with the crate's default cost: the result is a
/// 60-character `$2b$...` hash string that `bcrypt::verify` parses back
/// and accepts against the same password, whichever salt the generator
/// drew. Aborts if the hashing engine fails (it has no recoverable error
/// path here).
#[verifier::external_body]
pub(crate) fn hash_password(password: &str) -> (r: String)
    ensures
        bcrypt_matches(password@, r@),
        bcrypt_hash_shaped(r@),
        bcrypt_parses(r@),
{
    bcrypt::hash(password, bcrypt::DEFAULT_COST).expect("Failed to hash password")
}

/// Relies on `bcrypt::verify`: re-computes the hash from the password and
/// the cost and salt stored in `hash`, and compares. On a string bcrypt
/// cannot parse it aborts (it has no recoverable error path here), so
/// only parseable hashes are admitted; the call then cannot fail.
#[verifier::external_body]
pub(crate) fn verify_password(password: &str, hash: &str) -> (r: bool)
    requires
        bcrypt_parses(hash@),
    ensures
        r == bcrypt_matches(password@, hash@),
{
    bcrypt::verify(password, hash).expect("Failed to verify password")
}

/// Turns a create/update input into the record that is persisted: the
/// plaintext carried in `password_hash` is replaced by its bcrypt hash,
/// every other field is kept as it is.
pub fn prepare_create(new_user: &NewUser) -> (r: NewUser)
    requires
        new_user.password_hash is Some,
    ensures
        r.pseudo == new_user.pseudo,
        r.email == new_user.email,
        r.role == new_user.role,
        r.password_hash matches Some(h) && bcrypt_matches(
            new_user.password_hash.unwrap()@,
            h@,
        ) && bcrypt_hash_shaped(h@) && bcrypt_parses(h@),
{
    let hashed: String = match &new_user.password_hash {
        Some(p) => hash_password(p.as_str()),
        None => unreached(),
    };
    NewUser {
        pseudo: clone_opt_string(&new_user.pseudo),
        email: clone_opt_string(&new_user.email),
        password_hash: Some(hashed),
        role: clone_opt_string(&new_user.role),
    }
}

} // verus!
