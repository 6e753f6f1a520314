//! Password hashing and checking with scrypt, and the sign-up and sign-in
//! decisions built on them.
use vstd::arithmetic::power2::pow2;
use vstd::prelude::*;

use crate::config::ScryptConfig;
use crate::user::{constraint_outcome, field_len_ok, ConstraintError, NewUser, Password, User};

verus! {

/// What `scrypt_check` reports for a candidate password against a stored
/// hash: `Some(true)` on a match, `Some(false)` on a mismatch, `None` when
/// the stored text is not a well-formed hash.
pub uninterp spec fn scrypt_verdict(candidate: Seq<char>, stored: Seq<char>) -> Option<bool>;

/// The standard base64 text of `bytes`, as the `base64::encode` that scrypt
/// uses for the fields of its hash strings writes it.
pub uninterp spec fn base64_of(bytes: Seq<u8>) -> Seq<char>;

/// Whether scrypt accepts the work factors (`ScryptParams::new`): `r` and `p`
/// positive, `log_n` below the word size, the memory sizes `128 r`,
/// `128 r 2^log_n` and `128 r p` within a word, `log_n < 16 r`, and
/// `r p < 2^30`. (Its extra condition for words narrower than 32 bits
/// never applies.)
pub open spec fn scrypt_params_ok(log_n: u8, r: u32, p: u32) -> bool {
    &&& r > 0
    &&& p > 0
    &&& (log_n as nat) < usize::BITS as nat
    &&& r * 128 <= usize::MAX
    &&& r * 128 * pow2(log_n as nat) <= usize::MAX
    &&& r * 128 * p <= usize::MAX
    &&& (log_n as int) < r * 16
    &&& r * p < 0x40000000
}

/// The four little-endian bytes of `x`.
pub open spec fn le_bytes(x: u32) -> Seq<u8> {
    seq![(x % 256) as u8, ((x / 256) % 256) as u8, ((x / 65536) % 256) as u8, (x / 16777216) as u8]
}

/// The bytes of the work factors in a hash string: `log_n, r, p` as one
/// byte each when `r` and `p` each fit in a byte, else `log_n` followed by
/// `r` and `p` as four little-endian bytes each.
pub open spec fn factor_bytes(log_n: u8, r: u32, p: u32) -> Seq<u8> {
    if r < 256 && p < 256 {
        seq![log_n, r as u8, p as u8]
    } else {
        seq![log_n] + le_bytes(r) + le_bytes(p)
    }
}

/// The head of a hash string whose encoded work factors are `fields`:
/// `$rscrypt$0$<fields>$` for the one-byte layout, `$rscrypt$1$<fields>$`
/// for the other. Salt and derived key follow it.
pub open spec fn rscrypt_head(r: u32, p: u32, fields: Seq<char>) -> Seq<char> {
    let tag = seq!['$', 'r', 's', 'c', 'r', 'y', 'p', 't', '$'];
    let format = if r < 256 && p < 256 { '0' } else { '1' };
    tag + seq![format, '$'] + fields + seq!['$']
}

/// Whether `h` begins with `head`.
pub open spec fn starts_with(h: Seq<char>, head: Seq<char>) -> bool {
    h.len() >= head.len() && h.subrange(0, head.len() as int) == head
}

/// Relies on scrypt's `ScryptParams::new`: `Ok` exactly for the work factors
/// that `scrypt_params_ok` describes.
#[verifier::external_body]
fn scrypt_params_accepted(log_n: u8, r: u32, p: u32) -> (res: bool)
    ensures
        res == scrypt_params_ok(log_n, r, p),
{
    scrypt::ScryptParams::new(log_n, r, p).is_ok()
}

/// Relies on scrypt's `scrypt_simple` (with `ScryptParams::new`, which
/// accepts these factors): it salts the password with 16 bytes from the
/// operating system's random source and fails only when that source fails.
/// The string it returns begins with the work factors, then salt and derived
/// key, base64-encoded; as its documentation states, `scrypt_check` accepts
/// the password against it.
#[verifier::external_body]
fn scrypt_hash(password: &str, log_n: u8, r: u32, p: u32) -> (res: Option<String>)
    requires
        scrypt_params_ok(log_n, r, p),
    ensures
        res matches Some(h) ==> scrypt_verdict(password@, h@) == Some(true),
        res matches Some(h) ==> starts_with(h@, rscrypt_head(r, p, base64_of(factor_bytes(log_n, r, p)))),
{
    let params = scrypt::ScryptParams::new(log_n, r, p).ok()?;
    scrypt::scrypt_simple(password, &params).ok()
}

/// Relies on scrypt's `scrypt_check`: `Ok` on a match, `HashMismatch` on a
/// mismatch, `InvalidFormat` for a malformed stored hash.
#[verifier::external_body]
fn scrypt_check(candidate: &str, stored: &str) -> (res: Option<bool>)
    ensures
        res == scrypt_verdict(candidate@, stored@),
{
    match scrypt::scrypt_check(candidate, stored) {
        Ok(()) => Some(true),
        Err(scrypt::errors::CheckError::HashMismatch) => Some(false),
        Err(scrypt::errors::CheckError::InvalidFormat) => None,
    }
}

/// The stored hash is not in the format that the hasher writes: a corrupted
/// record, not a wrong password.
#[derive(Debug, PartialEq, Eq, Structural, Clone, Copy)]
pub struct MalformedHash;

/// Why a password could not be hashed.
#[derive(Debug, PartialEq, Eq, Structural, Clone, Copy)]
pub enum HashError {
    /// The password was hashed already: hashing a hash is never valid.
    AlreadyHashed,
    /// The random source for the salt failed.
    RandomSource,
}

/// Why a sign-up was refused.
#[derive(Debug, PartialEq, Eq, Structural, Clone, Copy)]
pub enum SignUpError {
    Constraint(ConstraintError),
    Hash(HashError),
}

/// The work factors were refused by the hasher.
#[derive(Debug, PartialEq, Eq, Structural, Clone, Copy)]
pub struct InvalidParams;

/// A sign-in form: login and raw password.
pub struct SignIn {
    pub login: String,
    pub password: String,
}

/// Why a sign-in failed.
#[derive(Debug, PartialEq, Eq, Structural, Clone, Copy)]
pub enum Failed {
    /// No user has this login.
    UnknownLogin,
    /// The user exists and the password does not match.
    IncorrectPassword,
    /// The user's stored hash is malformed: a data integrity fault.
    MalformedHash,
}

/// The outcome of checking `candidate` against `stored`.
pub open spec fn check_outcome(candidate: Seq<char>, stored: Seq<char>) -> Result<bool, MalformedHash> {
    match scrypt_verdict(candidate, stored) {
        Some(b) => Ok(b),
        None => Err(MalformedHash),
    }
}

/// The sign-in decision for a form with `login` and `password`, given what
/// storage found for that login.
pub open spec fn sign_in_outcome(login: Seq<char>, password: Seq<char>, found: Option<User>) -> Result<User, Failed> {
    match found {
        None => Err(Failed::UnknownLogin),
        Some(user) => if user.login@ != login {
            Err(Failed::UnknownLogin)
        } else {
            match check_outcome(password, user.password@) {
                Ok(true) => Ok(user),
                Ok(false) => Err(Failed::IncorrectPassword),
                Err(_) => Err(Failed::MalformedHash),
            }
        },
    }
}

/// A sign-up whose login is empty or longer than 250 characters is refused for
/// its login, whatever the email; one whose login and email are both within
/// bounds passes the constraint check.
pub proof fn lemma_sign_up_bounds(login: Seq<char>, email: Seq<char>)
    ensures
        !field_len_ok(login.len()) ==> constraint_outcome(login, email) == Err::<(), ConstraintError>(
            ConstraintError::LoginLen(login.len() as usize),
        ),
        field_len_ok(login.len()) && field_len_ok(email.len()) ==> constraint_outcome(login, email) is Ok,
{
}

/// Sign-in outcomes: an unknown login is reported as such; a known login
/// with a password that the stored hash rejects is an incorrect password;
/// with one that it accepts, the user is returned.
pub proof fn lemma_sign_in_cases(login: Seq<char>, password: Seq<char>, found: Option<User>)
    ensures
        found is None ==> sign_in_outcome(login, password, found) == Err::<User, Failed>(Failed::UnknownLogin),
        found matches Some(u) && u.login@ == login && check_outcome(password, u.password@) == Ok::<bool, MalformedHash>(false)
            ==> sign_in_outcome(login, password, found) == Err::<User, Failed>(Failed::IncorrectPassword),
        found matches Some(u) && u.login@ == login && check_outcome(password, u.password@) == Ok::<bool, MalformedHash>(true)
            ==> sign_in_outcome(login, password, found) == Ok::<User, Failed>(found->0),
{
}

/// A user whose stored password is the hash of `raw` (as `hash_password` and
/// `sign_up` produce it) signs in with `raw`.
pub proof fn lemma_hashed_password_signs_in(user: User, raw: Seq<char>, hashed: Seq<char>)
    requires
        user.password@ == hashed,
        check_outcome(raw, hashed) == Ok::<bool, MalformedHash>(true),
    ensures
        sign_in_outcome(user.login@, raw, Some(user)) == Ok::<User, Failed>(user),
{
}

/// Password hasher and checker, with its work factors.
pub struct Auth {
    log_n: u8,
    r: u32,
    p: u32,
}

/// scrypt's recommended work factors: `log_n = 15`, `r = 8`, `p = 1`.
pub const RECOMMENDED_LOG_N: u8 = 15;
pub const RECOMMENDED_R: u32 = 8;
pub const RECOMMENDED_P: u32 = 1;

impl Auth {
    /// The work factors are always ones that scrypt accepts.
    #[verifier::type_invariant]
    spec fn inv(&self) -> bool {
        scrypt_params_ok(self.log_n, self.r, self.p)
    }

    /// The work factors as `(log_n, r, p)`: those every hash is made with.
    pub closed spec fn cost(&self) -> (u8, u32, u32) {
        (self.log_n, self.r, self.p)
    }

    /// A hasher with the configured work factors, or scrypt's recommended
    /// ones when none are configured. Configured factors that scrypt refuses
    /// give `InvalidParams`.
    pub fn new(config: Option<ScryptConfig>) -> (res: Result<Auth, InvalidParams>)
        ensures
            config is None ==> (res matches Ok(a) && a.cost() == (RECOMMENDED_LOG_N, RECOMMENDED_R, RECOMMENDED_P)),
            config matches Some(c) ==> (res is Ok <==> scrypt_params_ok(c.log_n, c.r, c.p)),
            config matches Some(c) ==> (res matches Ok(a) ==> a.cost() == (c.log_n, c.r, c.p)),
    {
        match config {
            None => {
                proof {
                    assert(pow2(15) == 32768) by {
                        vstd::arithmetic::power2::lemma2_to64();
                    }
                    assert(usize::BITS >= 32);
                }
                Ok(Auth { log_n: RECOMMENDED_LOG_N, r: RECOMMENDED_R, p: RECOMMENDED_P })
            },
            Some(c) => {
                if scrypt_params_accepted(c.log_n(), c.r(), c.p()) {
                    Ok(Auth { log_n: c.log_n(), r: c.r(), p: c.p() })
                } else {
                    Err(InvalidParams)
                }
            },
        }
    }

    /// Hashes a raw password with this hasher's work factors. A password
    /// that is hashed already is refused; the hash that comes out begins with
    /// the work factors, and is accepted by `check_password` for the raw
    /// password that went in.
    pub fn hash_password(&self, password: Password) -> (res: Result<Password, HashError>)
        ensures
            password is Hashed ==> res == Err::<Password, HashError>(HashError::AlreadyHashed),
            password matches Password::Raw(raw) ==> match res {
                Ok(Password::Hashed(h)) => {
                    &&& check_outcome(raw@, h@) == Ok::<bool, MalformedHash>(true)
                    &&& starts_with(
                        h@,
                        rscrypt_head(self.cost().1, self.cost().2, base64_of(factor_bytes(self.cost().0, self.cost().1, self.cost().2))),
                    )
                },
                Ok(Password::Raw(_)) => false,
                Err(e) => e == HashError::RandomSource,
            },
    {
        proof {
            use_type_invariant(self);
        }
        match password {
            Password::Raw(raw) => match scrypt_hash(raw.as_str(), self.log_n, self.r, self.p) {
                Some(h) => Ok(Password::Hashed(h)),
                None => Err(HashError::RandomSource),
            },
            Password::Hashed(_) => Err(HashError::AlreadyHashed),
        }
    }

    /// Checks a raw candidate against a stored hash, whose own parameters and
    /// salt are used; the final comparison takes constant time.
    pub fn check_password(&self, password: &str, hashed: &str) -> (res: Result<bool, MalformedHash>)
        ensures
            res == check_outcome(password@, hashed@),
    {
        match scrypt_check(password, hashed) {
            Some(b) => Ok(b),
            None => Err(MalformedHash),
        }
    }

    /// Prepares a sign-up: the login and email must each be 1 to 250 characters
    /// long in characters (the login is checked first), then the raw password is hashed.
    /// The result, carrying only the hashed password, is what storage
    /// receives.
    pub fn sign_up(&self, user: NewUser) -> (res: Result<NewUser, SignUpError>)
        ensures
            constraint_outcome(user.login@, user.email@) matches Err(e) ==> res == Err::<NewUser, SignUpError>(SignUpError::Constraint(e)),
            constraint_outcome(user.login@, user.email@) is Ok ==> match res {
                Ok(n) => {
                    &&& n.login@ == user.login@
                    &&& n.email@ == user.email@
                    &&& user.password matches Password::Raw(raw)
                    &&& n.password matches Password::Hashed(h)
                    &&& check_outcome(raw@, h@) == Ok::<bool, MalformedHash>(true)
                },
                Err(e) => e == if user.password is Hashed {
                    SignUpError::Hash(HashError::AlreadyHashed)
                } else {
                    SignUpError::Hash(HashError::RandomSource)
                },
            },
    {
        match user.check_constraints() {
            Err(e) => Err(SignUpError::Constraint(e)),
            Ok(()) => {
                let NewUser { login, email, password } = user;
                match self.hash_password(password) {
                    Ok(hashed) => Ok(NewUser { login, email, password: hashed }),
                    Err(e) => Err(SignUpError::Hash(e)),
                }
            },
        }
    }

    /// Decides a sign-in, given the user that storage found for the form's
    /// login (if any). A user whose login differs from the form's counts as
    /// not found.
    pub fn sign_in(&self, form: &SignIn, found: Option<User>) -> (res: Result<User, Failed>)
        ensures
            res == sign_in_outcome(form.login@, form.password@, found),
    {
        match found {
            None => Err(Failed::UnknownLogin),
            Some(user) => {
                if user.login != form.login {
                    Err(Failed::UnknownLogin)
                } else {
                    match self.check_password(form.password.as_str(), user.password.as_str()) {
                        Ok(true) => Ok(user),
                        Ok(false) => Err(Failed::IncorrectPassword),
                        Err(_) => Err(Failed::MalformedHash),
                    }
                }
            },
        }
    }
}

} // verus!