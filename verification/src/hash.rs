//! Digest primitive used to derive a VRF seed from a stored proof.

use vstd::prelude::*;
use sha2::Digest;

verus! {

/// The SHA-512/256 digest of a byte sequence, as the sha2 crate computes it.
pub uninterp spec fn sha512_256_of(data: Seq<u8>) -> Seq<u8>;

/// Relies on sha2::Sha512_256 (through digest::Digest::digest): the digest is
/// a function of the input bytes alone, and is always 32 bytes long.
#[verifier::external_body]
pub(crate) fn sha512_256(data: &[u8]) -> (r: Vec<u8>)
    ensures
        r@ == sha512_256_of(data@),
        r@.len() == 32,
{
    sha2::Sha512_256::digest(data).to_vec()
}

} // verus!
