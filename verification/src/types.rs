//! Identifier and value types shared by the three storage surfaces.
//!
//! Identifiers are opaque fixed-size names in the surrounding system; this
//! layer never inspects their contents, so each is modelled as a newtype
//! over a single machine word.

use vstd::prelude::*;

verus! {

/// Identifier of an indexed block: names one block uniquely across forks.
#[derive(Clone, Copy, PartialEq, Eq, Structural, Debug, Hash)]
pub struct StacksBlockId(pub u64);

/// Hash of an anchored block header.
#[derive(Clone, Copy, PartialEq, Eq, Structural, Debug, Hash)]
pub struct BlockHeaderHash(pub u64);

/// Hash of a burn-chain block header.
#[derive(Clone, Copy, PartialEq, Eq, Structural, Debug, Hash)]
pub struct BurnchainHeaderHash(pub u64);

/// Fork-qualified identifier of a sortition: names one position in one
/// burn-chain fork.
#[derive(Clone, Copy, PartialEq, Eq, Structural, Debug, Hash)]
pub struct SortitionId(pub u64);

/// Reward-eligible address recorded in a miner payment.
#[derive(Clone, Copy, PartialEq, Eq, Structural, Debug, Hash)]
pub struct StacksAddress(pub u64);

/// The sentinel block identifier: the logical genesis/empty state, the only
/// identifier valid at height 0. All bits set, so it collides with no real
/// block identifier.
pub open spec fn spec_sentinel_block_id() -> StacksBlockId {
    StacksBlockId(0xffff_ffff_ffff_ffffu64)
}

impl StacksBlockId {
    /// The sentinel identifier that denotes the genesis/empty state.
    pub fn sentinel() -> (r: StacksBlockId)
        ensures
            r == spec_sentinel_block_id(),
    {
        StacksBlockId(0xffff_ffff_ffff_ffffu64)
    }
}

/// Errors this layer reports to its caller. Absence is a plain `None`, never
/// an error; storage corruption aborts instead of being reported.
#[derive(Clone, Copy, PartialEq, Eq, Structural, Debug)]
pub enum RuntimeError {
    /// A request to rebase onto a block this store has no history for.
    UnknownBlockHeaderHash(BlockHeaderHash),
}

/// A VRF proof as stored in a header record: opaque bytes to this layer.
#[derive(Debug, PartialEq, Eq)]
pub struct VRFProof {
    pub bytes: Vec<u8>,
}

/// A VRF seed: the SHA-512/256 digest of the block's stored VRF proof.
#[derive(Debug, PartialEq, Eq)]
pub struct VRFSeed {
    pub bytes: Vec<u8>,
}

impl VRFSeed {
    /// Derive the seed deterministically from a block's stored proof.
    pub fn from_proof(proof: &VRFProof) -> (r: VRFSeed)
        ensures
            r.bytes@ == crate::hash::sha512_256_of(proof.bytes@),
            r.bytes@.len() == 32,
    {
        VRFSeed { bytes: crate::hash::sha512_256(proof.bytes.as_slice()) }
    }
}

/// A Merkle inclusion proof for a state entry, as serialized bytes. The
/// in-memory backing store makes no cryptographic commitment: the proofs it
/// hands out are always empty.
#[derive(Debug, PartialEq, Eq)]
pub struct TrieMerkleProof(pub Vec<u8>);

} // verus!
