//! Session issuance: an access token and a refresh token for an
//! authenticated user, and the record that storage keeps of the refresh
//! token.
use vstd::prelude::*;

use crate::access::{hs256_token, AccessToken};
use crate::config::SessionConfig;
use crate::entropy::os_random_bytes;
use crate::refresh::{is_token_text, RefreshToken};
use crate::user::User;

verus! {

/// Length of a signing key, in bytes.
pub const SECRET_KEY_LEN: usize = 32;

/// Access-token lifetime when none is configured: 30 minutes.
pub const DEFAULT_ACCESS_LIFETIME: u32 = 1800;

/// Refresh-token lifetime when none is configured: 7 days.
pub const DEFAULT_OFFLINE_LIFETIME: u32 = 604800;

/// Relies on chrono's `Utc::now().timestamp()`: the current time in whole
/// seconds since the Unix epoch. Nothing is known of its value.
#[verifier::external_body]
fn unix_now() -> (r: i64) {
    chrono::Utc::now().timestamp()
}

/// The key that signs access tokens: 32 bytes.
#[derive(Debug)]
pub struct SecretKey(Vec<u8>);

impl View for SecretKey {
    type V = Seq<u8>;

    closed spec fn view(&self) -> Seq<u8> {
        self.0@
    }
}

impl SecretKey {
    /// A key always holds exactly 32 bytes.
    #[verifier::type_invariant]
    spec fn inv(&self) -> bool {
        self.0@.len() == SECRET_KEY_LEN
    }

    /// A key with the given bytes; `None` unless there are exactly 32.
    pub fn from_bytes(bytes: Vec<u8>) -> (r: Option<SecretKey>)
        ensures
            r is Some <==> bytes@.len() == SECRET_KEY_LEN,
            r matches Some(k) ==> k@ == bytes@,
    {
        if bytes.len() == SECRET_KEY_LEN {
            Some(SecretKey(bytes))
        } else {
            None
        }
    }

    /// A fresh key of 32 bytes from the operating system's random source;
    /// `None` when that source fails.
    pub fn gen() -> (r: Option<SecretKey>)
        ensures
            r matches Some(k) ==> k@.len() == SECRET_KEY_LEN,
    {
        match os_random_bytes(SECRET_KEY_LEN) {
            Some(bytes) => SecretKey::from_bytes(bytes),
            None => None,
        }
    }

    /// The key's bytes.
    pub fn as_bytes(&self) -> (r: &[u8])
        ensures
            r@ == self@,
    {
        self.0.as_slice()
    }
}

/// The pair of tokens handed to a client after it authenticated.
#[derive(Debug)]
pub struct Session {
    pub access_token: AccessToken,
    pub refresh_token: RefreshToken,
}

/// The record of a refresh token that storage keeps: whose it is, the
/// client it was issued to, and when it expires (seconds since the Unix
/// epoch).
#[derive(Debug)]
pub struct NewSession {
    pub user_id: i32,
    pub refresh_token: RefreshToken,
    pub fingerprint: String,
    pub expires: i64,
}

/// Issues sessions with configured lifetimes, signing under one key.
#[derive(Debug)]
pub struct SessionManager {
    access_lifetime: u32,
    offline_lifetime: u32,
    secret_key: SecretKey,
}

/// Whether sessions issued at `now` by `m` have expiry times that fit in
/// an `i64`.
pub open spec fn issuable_at(m: &SessionManager, now: i64) -> bool {
    &&& now + m.access_lifetime() <= i64::MAX
    &&& now + m.offline_lifetime() <= i64::MAX
}

impl SessionManager {
    /// Lifetime of an access token, in seconds.
    pub closed spec fn access_lifetime(&self) -> int {
        self.access_lifetime as int
    }

    /// Lifetime of a refresh token, in seconds.
    pub closed spec fn offline_lifetime(&self) -> int {
        self.offline_lifetime as int
    }

    /// The key that access tokens are signed under.
    pub closed spec fn key(&self) -> Seq<u8> {
        self.secret_key@
    }

    /// An issuer with the configured lifetimes (1800 s and 604800 s where
    /// none is configured) that signs under `secret_key`.
    pub fn new(config: SessionConfig, secret_key: SecretKey) -> (m: SessionManager)
        ensures
            m.access_lifetime() == match config.access_lifetime {
                Some(v) => v,
                None => DEFAULT_ACCESS_LIFETIME,
            },
            m.offline_lifetime() == match config.offline_lifetime {
                Some(v) => v,
                None => DEFAULT_OFFLINE_LIFETIME,
            },
            m.key() == secret_key@,
            m.key().len() == SECRET_KEY_LEN,
    {
        proof {
            use_type_invariant(&secret_key);
        }
        let access: u32 = match config.access_lifetime() {
            Some(v) => v,
            None => DEFAULT_ACCESS_LIFETIME,
        };
        let offline: u32 = match config.offline_lifetime() {
            Some(v) => v,
            None => DEFAULT_OFFLINE_LIFETIME,
        };
        SessionManager {
            access_lifetime: access,
            offline_lifetime: offline,
            secret_key,
        }
    }

    /// Issues a session at time `now` with the given refresh token: the
    /// access token expires at `now + access_lifetime`, and the record to
    /// store expires at `now + offline_lifetime`. Always succeeds.
    pub fn issue_session(&self, user: &User, fingerprint: &str, now: i64, refresh_token: RefreshToken) -> (r: Option<(Session, NewSession)>)
        requires
            issuable_at(self, now),
        ensures
            r is Some,
            r matches Some((s, rec)) ==> {
                &&& s.access_token@ == hs256_token(user.id, user.login@, (now + self.access_lifetime()) as i64, self.key())
                &&& s.refresh_token@ == refresh_token@
                &&& rec.user_id == user.id
                &&& rec.refresh_token@ == refresh_token@
                &&& rec.fingerprint@ == fingerprint@
                &&& rec.expires == now + self.offline_lifetime()
            },
    {
        let access_expires: i64 = now + self.access_lifetime as i64;
        let record_expires: i64 = now + self.offline_lifetime as i64;
        match AccessToken::new(user, access_expires, &self.secret_key) {
            Some(access_token) => {
                let record = NewSession {
                    user_id: user.id,
                    refresh_token: refresh_token.duplicate(),
                    fingerprint: fingerprint.to_owned(),
                    expires: record_expires,
                };
                Some((Session { access_token, refresh_token }, record))
            },
            None => None,
        }
    }

    /// Issues a session now: reads the clock, draws a fresh refresh token
    /// and signs the access token. The access token expires
    /// `access_lifetime` seconds after the time read, and the record that
    /// storage must keep `offline_lifetime` seconds after it (so the time of
    /// issue is the record's expiry less `offline_lifetime`). `None` when the
    /// random source fails, or when an expiry would not fit in an `i64`.
    pub fn create_session(&self, user: &User, fingerprint: &str) -> (r: Option<(Session, NewSession)>)
        ensures
            r matches Some((s, rec)) ==> {
                let issued = rec.expires - self.offline_lifetime();
                &&& issuable_at(self, issued as i64)
                &&& s.access_token@ == hs256_token(user.id, user.login@, (issued + self.access_lifetime()) as i64, self.key())
                &&& is_token_text(s.refresh_token@)
                &&& rec.refresh_token@ == s.refresh_token@
                &&& rec.user_id == user.id
                &&& rec.fingerprint@ == fingerprint@
            },
    {
        let now = unix_now();
        if now > i64::MAX - self.access_lifetime as i64 || now > i64::MAX - self.offline_lifetime as i64 {
            return None;
        }
        match RefreshToken::gen() {
            Some(refresh_token) => self.issue_session(user, fingerprint, now, refresh_token),
            None => None,
        }
    }
}

} // verus!
