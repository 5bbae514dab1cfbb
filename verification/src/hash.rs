//! SHA-384 digest, trusted at the boundary of the `sha2` crate.

use vstd::prelude::*;
use sha2::Digest;

verus! {

/// The SHA-384 digest of `b`: a pure function of the input, 48 bytes long.
pub uninterp spec fn sha384_of(b: Seq<u8>) -> Seq<u8>;

/// Relies on `sha2::Sha384`: one-shot digest of the input bytes.
#[verifier::external_body]
pub fn sha384(data: &[u8]) -> (r: Vec<u8>)
    ensures
        r@ == sha384_of(data@),
        r@.len() == 48,
{
    let mut hasher = sha2::Sha384::new();
    hasher.update(data);
    hasher.finalize().to_vec()
}

} // verus!
