use vstd::prelude::*;

verus! {

/// A stored user record: one row of the `user` relation.
///
/// The store's invariant (not of this bare record) is that
/// `password_hash`, once the record has been persisted, holds a hash
/// output and never plaintext.
pub struct User {
    pub id: i32,
    pub pseudo: Option<String>,
    pub email: Option<String>,
    pub password_hash: Option<String>,
    pub role: Option<String>,
}

/// Input for create and update: a `User` without the generated id.
/// `password_hash` here may arrive as plaintext; it is hashed before
/// persistence.
pub struct NewUser {
    pub pseudo: Option<String>,
    pub email: Option<String>,
    pub password_hash: Option<String>,
    pub role: Option<String>,
}

/// The claims of a login token: the subject (the user's email) and the
/// expiry timestamp. Built at login time, signed into the token, never
/// persisted.
pub struct Claims {
    pub sub: String,
    pub exp: u64,
}

/// The error the repository operations signal.
#[derive(Clone, Copy, Debug, PartialEq, Eq, Structural)]
pub enum RepoError {
    /// The record looked up does not exist, or authentication failed.
    /// Lookup misses and wrong passwords are deliberately not told apart.
    NotFound,
}

/// Clones an optional string, preserving its value.
pub fn clone_opt_string(s: &Option<String>) -> (r: Option<String>)
    ensures
        r == *s,
{
    match s {
        Some(v) => Some(v.clone()),
        None => None,
    }
}

impl User {
    /// Clones one record field by field.
    pub fn clone_record(&self) -> (r: User)
        ensures
            r == *self,
    {
        User {
            id: self.id,
            pseudo: clone_opt_string(&self.pseudo),
            email: clone_opt_string(&self.email),
            password_hash: clone_opt_string(&self.password_hash),
            role: clone_opt_string(&self.role),
        }
    }
}

} // verus!
