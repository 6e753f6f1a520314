//! Signed access tokens: a compact HS256 token over the claims
//! `{user_id, login, exp}`.
use vstd::prelude::*;

use crate::session::SecretKey;
use crate::user::User;

verus! {

/// The HS256-signed token of the claims object `{user_id, login, exp}` under
/// the HMAC key `key`.
pub uninterp spec fn hs256_token(user_id: i32, login: Seq<char>, exp: i64, key: Seq<u8>) -> Seq<char>;

/// Relies on jsonwebtoken's `encode`, with the default header (HS256) and
/// `EncodingKey::from_secret(key)`: the three dot-separated segments of the
/// signed claims object, a function of these values alone. It cannot fail
/// here: header and key are both of the HMAC family, a map with string keys
/// always serializes, and the HMAC signer always returns `Ok`.
#[verifier::external_body]
fn encode_hs256(user_id: i32, login: &str, exp: i64, key: &[u8]) -> (r: Option<String>)
    ensures
        r is Some,
        r matches Some(t) ==> t@ == hs256_token(user_id, login@, exp, key@),
{
    let mut claims = serde_json::Map::new();
    claims.insert("user_id".to_string(), user_id.into());
    claims.insert("login".to_string(), login.into());
    claims.insert("exp".to_string(), exp.into());
    let key = jsonwebtoken::EncodingKey::from_secret(key);
    jsonwebtoken::encode(&jsonwebtoken::Header::default(), &claims, &key).ok()
}

/// A signed access token.
#[derive(Debug, Clone)]
pub struct AccessToken(String);

impl View for AccessToken {
    type V = Seq<char>;

    closed spec fn view(&self) -> Seq<char> {
        self.0@
    }
}

impl AccessToken {
    /// Signs the claims of `user` with expiry `expires` (seconds since the
    /// Unix epoch) under `secret_key`. Signing with an HMAC key always
    /// succeeds, and equal inputs give equal tokens.
    pub fn new(user: &User, expires: i64, secret_key: &SecretKey) -> (r: Option<AccessToken>)
        ensures
            r is Some,
            r matches Some(t) ==> t@ == hs256_token(user.id, user.login@, expires, secret_key@),
    {
        match encode_hs256(user.id, user.login.as_str(), expires, secret_key.as_bytes()) {
            Some(t) => Some(AccessToken(t)),
            None => None,
        }
    }

    /// The token's text.
    pub fn as_str(&self) -> (r: &str)
        ensures
            r@ == self@,
    {
        self.0.as_str()
    }
}

} // verus!
