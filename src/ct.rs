//! Equality whose running time does not depend on where two equal-length
//! inputs first differ.
use vstd::prelude::*;
use vstd::utf8::encode_utf8_decode_utf8;

verus! {

/// Relies on subtle's `ConstantTimeEq` for byte slices: `unwrap_u8` of the
/// returned choice is 1 exactly when the slices have equal length and equal
/// bytes (the lengths alone are compared with a short circuit).
#[verifier::external_body]
fn ct_eq_bytes(a: &[u8], b: &[u8]) -> (r: bool)
    ensures
        r == (a@ == b@),
{
    subtle::ConstantTimeEq::ct_eq(a, b).unwrap_u8() == 1
}

/// Compares two strings by their bytes in constant time: the result is
/// whether they are equal.
pub fn constant_time_equals(a: &str, b: &str) -> (r: bool)
    ensures
        r == (a@ == b@),
{
    let r = ct_eq_bytes(a.as_bytes(), b.as_bytes());
    proof {
        encode_utf8_decode_utf8(a@);
        encode_utf8_decode_utf8(b@);
    }
    r
}

} // verus!
