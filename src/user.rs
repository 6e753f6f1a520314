//! Users, the requests that propose them, and passwords in their raw or
//! hashed state.
use vstd::prelude::*;
use vstd::string::StrSliceExecFns;

verus! {

/// Bound on the length of a login or an email, in characters.
pub const MAX_FIELD_LEN: usize = 250;

/// Whether a field of `n` characters is within bounds: non-empty and at most
/// `MAX_FIELD_LEN` characters.
pub open spec fn field_len_ok(n: nat) -> bool {
    1 <= n <= MAX_FIELD_LEN
}

/// A stored user. Its `password` is the hashed form, never the raw one.
#[derive(Debug)]
pub struct User {
    pub id: i32,
    pub login: String,
    pub email: String,
    pub password: String,
}

/// A field of a new user out of bounds, with its length in characters.
#[derive(Debug, PartialEq, Eq, Structural, Clone, Copy)]
pub enum ConstraintError {
    LoginLen(usize),
    EmailLen(usize),
}

/// A password, raw as the user typed it or hashed for storage.
#[derive(Clone)]
pub enum Password {
    Raw(String),
    Hashed(String),
}

impl Password {
    /// Whether this is the hashed form.
    pub fn is_hashed(&self) -> (r: bool)
        ensures
            r == self is Hashed,
    {
        match self {
            Password::Raw(_) => false,
            Password::Hashed(_) => true,
        }
    }

    /// The hashed text, the only form that may be stored or shown; `None`
    /// for a raw password.
    pub fn hashed(&self) -> (r: Option<&str>)
        ensures
            match self {
                Password::Raw(_) => r is None,
                Password::Hashed(h) => (r matches Some(t) && t@ == h@),
            },
    {
        match self {
            Password::Raw(_) => None,
            Password::Hashed(h) => Some(h.as_str()),
        }
    }
}

/// The constraint check on a new user with the given login and email: the
/// login is checked first.
pub open spec fn constraint_outcome(login: Seq<char>, email: Seq<char>) -> Result<(), ConstraintError> {
    if !field_len_ok(login.len()) {
        Err(ConstraintError::LoginLen(login.len() as usize))
    } else if !field_len_ok(email.len()) {
        Err(ConstraintError::EmailLen(email.len() as usize))
    } else {
        Ok(())
    }
}

/// A proposed user, as a sign-up request brings it.
#[derive(Clone)]
pub struct NewUser {
    pub login: String,
    pub email: String,
    pub password: Password,
}

impl NewUser {
    /// Checks that login and email are each between 1 and 250 characters
    /// long.
    pub fn check_constraints(&self) -> (r: Result<(), ConstraintError>)
        ensures
            r == constraint_outcome(self.login@, self.email@),
    {
        let login_len = self.login.as_str().unicode_len();
        if login_len < 1 || login_len > MAX_FIELD_LEN {
            return Err(ConstraintError::LoginLen(login_len));
        }
        let email_len = self.email.as_str().unicode_len();
        if email_len < 1 || email_len > MAX_FIELD_LEN {
            return Err(ConstraintError::EmailLen(email_len));
        }
        Ok(())
    }
}

} // verus!
