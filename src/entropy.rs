//! The operating system's random source.
use vstd::prelude::*;

verus! {

/// Relies on rand's `OsRng::try_fill_bytes`: on success the buffer of `n`
/// bytes has been filled from the operating system's random source. Nothing
/// is known of the bytes themselves.
#[verifier::external_body]
pub(crate) fn os_random_bytes(n: usize) -> (r: Option<Vec<u8>>)
    ensures
        r matches Some(v) ==> v@.len() == n,
{
    let mut buf = vec![0u8; n];
    rand::RngCore::try_fill_bytes(&mut rand::rngs::OsRng, &mut buf).ok().map(|_| buf)
}

} // verus!
