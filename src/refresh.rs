//! Opaque refresh tokens: eight symbols of a 64-symbol URL-safe alphabet,
//! drawn from the operating system's random source, compared in constant time.
use vstd::prelude::*;

use crate::ct::constant_time_equals;
use crate::entropy::os_random_bytes;
use crate::text::push_char;

verus! {

/// Length of a refresh token, in symbols.
pub const TOKEN_LEN: usize = 8;

/// The symbol that stands for `r` (taken modulo 64): digits, then lower-case
/// letters, then upper-case letters, then `-` and `_`.
pub open spec fn symbol_of(r: int) -> char {
    if r < 10 {
        (48 + r) as char
    } else if r < 36 {
        (97 + (r - 10)) as char
    } else if r < 62 {
        (65 + (r - 36)) as char
    } else if r == 62 {
        '-'
    } else {
        '_'
    }
}

/// Whether `c` belongs to the refresh-token alphabet `[0-9a-zA-Z_-]`.
pub open spec fn in_alphabet(c: char) -> bool {
    ||| ('0' <= c && c <= '9')
    ||| ('a' <= c && c <= 'z')
    ||| ('A' <= c && c <= 'Z')
    ||| c == '-'
    ||| c == '_'
}

/// The token text that a sequence of random bytes maps to: each byte,
/// reduced modulo 64, picks one symbol.
pub open spec fn token_of(bytes: Seq<u8>) -> Seq<char> {
    Seq::new(bytes.len(), |i: int| symbol_of(bytes[i] as int % 64))
}

/// A well-formed token text: exactly eight symbols of the alphabet.
pub open spec fn is_token_text(s: Seq<char>) -> bool {
    &&& s.len() == TOKEN_LEN
    &&& forall|i: int| 0 <= i < s.len() ==> in_alphabet(#[trigger] s[i])
}

/// Every symbol lies in the alphabet.
pub proof fn lemma_symbol_in_alphabet(r: int)
    requires
        0 <= r < 64,
    ensures
        in_alphabet(symbol_of(r)),
{
}

/// Every token text of eight random bytes is well formed.
pub proof fn lemma_token_of_is_token_text(bytes: Seq<u8>)
    requires
        bytes.len() == TOKEN_LEN,
    ensures
        is_token_text(token_of(bytes)),
{
    assert forall|i: int| 0 <= i < token_of(bytes).len() implies in_alphabet(#[trigger] token_of(bytes)[i]) by {
        lemma_symbol_in_alphabet(bytes[i] as int % 64);
    }
}

/// The symbol for one random byte.
pub fn symbol(b: u8) -> (c: char)
    ensures
        c == symbol_of(b as int % 64),
        in_alphabet(c),
{
    let r: u8 = b % 64;
    if r < 10 {
        (48u8 + r) as char
    } else if r < 36 {
        (97u8 + (r - 10)) as char
    } else if r < 62 {
        (65u8 + (r - 36)) as char
    } else if r == 62 {
        '-'
    } else {
        '_'
    }
}

/// An opaque refresh token.
#[derive(Debug, Clone)]
pub struct RefreshToken(String);

impl View for RefreshToken {
    type V = Seq<char>;

    closed spec fn view(&self) -> Seq<char> {
        self.0@
    }
}

impl RefreshToken {
    /// The token that `bytes` map to, one symbol per byte.
    pub fn from_random_bytes(bytes: &[u8]) -> (t: RefreshToken)
        ensures
            t@ == token_of(bytes@),
    {
        let mut s = String::new();
        let mut i: usize = 0;
        while i < bytes.len()
            invariant
                0 <= i <= bytes@.len(),
                s@ == token_of(bytes@.subrange(0, i as int)),
            decreases bytes@.len() - i,
        {
            let c = symbol(bytes[i]);
            push_char(&mut s, c);
            proof {
                assert(token_of(bytes@.subrange(0, i + 1)) =~= token_of(bytes@.subrange(0, i as int)).push(c));
            }
            i += 1;
        }
        proof {
            assert(bytes@.subrange(0, bytes@.len() as int) =~= bytes@);
        }
        RefreshToken(s)
    }

    /// Draws a fresh token from the operating system's random source: eight
    /// random bytes, each mapped to one symbol. `None` when the random source
    /// fails.
    pub fn gen() -> (r: Option<RefreshToken>)
        ensures
            r matches Some(t) ==> {
                &&& is_token_text(t@)
                &&& exists|bytes: Seq<u8>| bytes.len() == TOKEN_LEN && t@ == token_of(bytes)
            },
    {
        match os_random_bytes(TOKEN_LEN) {
            Some(bytes) => {
                let t = RefreshToken::from_random_bytes(bytes.as_slice());
                proof {
                    lemma_token_of_is_token_text(bytes@);
                }
                Some(t)
            },
            None => None,
        }
    }

    /// A copy of this token.
    pub fn duplicate(&self) -> (r: RefreshToken)
        ensures
            r@ == self@,
    {
        RefreshToken(self.0.clone())
    }

    /// The token's text.
    pub fn as_str(&self) -> (r: &str)
        ensures
            r@ == self@,
    {
        self.0.as_str()
    }

    /// Compares two tokens in constant time: whether they are equal.
    pub fn ct_eq<R>(&self, rhs: &Self) -> (r: bool)
        ensures
            r == (self@ == rhs@),
    {
        constant_time_equals(self.0.as_str(), rhs.0.as_str())
    }
}

} // verus!
