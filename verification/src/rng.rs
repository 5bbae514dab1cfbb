//! Random byte generation, trusted at the boundary of the `rand` crate.

use vstd::prelude::*;

verus! {

/// Relies on `rand::thread_rng` and `Rng::fill`: fills a buffer of the asked
/// length from a CSPRNG.  Nothing can be promised of the values.
#[verifier::external_body]
pub fn random_bytes(len: usize) -> (r: Vec<u8>)
    ensures
        r@.len() == len,
{
    let mut buf = vec![0u8; len];
    rand::Rng::fill(&mut rand::thread_rng(), &mut buf[..]);
    buf
}

} // verus!
