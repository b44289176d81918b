//! Header Accessor: answers "what do we know about block X" from a ledger of
//! header records and miner payment records.
//!
//! The ledger rows are written once by the surrounding system when a block is
//! accepted and never mutated; this layer only reads them. The ledger
//! guarantees at most one header row per block identifier and at most one
//! miner-flagged payment row per block identifier (`wf`); this layer assumes
//! that invariant and its constructors preserve it. Zero matching rows is the
//! routine "absent" answer, never an error.

use vstd::prelude::*;

use crate::hash::sha512_256_of;
use crate::types::{BlockHeaderHash, BurnchainHeaderHash, StacksAddress, StacksBlockId, VRFSeed};

verus! {

/// One block-header record, keyed by block identifier.
#[derive(Debug)]
pub struct HeaderRecord {
    /// Canonical hash of the anchored block header.
    pub block_hash: BlockHeaderHash,
    /// Hash of the burn-chain block that anchored this block.
    pub burn_header_hash: BurnchainHeaderHash,
    /// Timestamp of that burn-chain block, in seconds.
    pub burn_header_timestamp: u64,
    /// Height of that burn-chain block.
    pub burn_header_height: u32,
    /// The block's stored VRF proof; the seed is derived from it on demand.
    pub proof: crate::types::VRFProof,
}

/// One miner payment record. At most one record per block identifier carries
/// the miner-slot flag: that one names the reward-eligible miner address.
#[derive(Clone, Copy, Debug)]
pub struct MinerPaymentRecord {
    pub block_id: StacksBlockId,
    /// The miner-slot flag: set on the single mining record of the block.
    pub miner: bool,
    pub address: StacksAddress,
}

/// The first header record keyed by `b`, scanning rows in order.
pub open spec fn spec_find_header(
    s: Seq<(StacksBlockId, HeaderRecord)>,
    b: StacksBlockId,
) -> Option<HeaderRecord>
    decreases s.len(),
{
    if s.len() == 0 {
        None
    } else if s[0].0 == b {
        Some(s[0].1)
    } else {
        spec_find_header(s.drop_first(), b)
    }
}

/// The first miner-flagged payment record keyed by `b`, scanning rows in order.
pub open spec fn spec_find_miner(
    s: Seq<MinerPaymentRecord>,
    b: StacksBlockId,
) -> Option<MinerPaymentRecord>
    decreases s.len(),
{
    if s.len() == 0 {
        None
    } else if s[0].miner && s[0].block_id == b {
        Some(s[0])
    } else {
        spec_find_miner(s.drop_first(), b)
    }
}

/// No two header rows name the same block.
pub open spec fn unique_header_ids(s: Seq<(StacksBlockId, HeaderRecord)>) -> bool {
    forall|i: int, j: int|
        #![trigger s[i], s[j]]
        0 <= i < j < s.len() ==> s[i].0 != s[j].0
}

/// No two miner-flagged payment rows name the same block.
pub open spec fn at_most_one_miner_record(s: Seq<MinerPaymentRecord>) -> bool {
    forall|i: int, j: int|
        #![trigger s[i], s[j]]
        0 <= i < j < s.len() && s[i].miner && s[j].miner ==> s[i].block_id != s[j].block_id
}

/// A header row is absent exactly when no row carries its key.
pub proof fn lemma_find_header_none(s: Seq<(StacksBlockId, HeaderRecord)>, b: StacksBlockId)
    ensures
        (spec_find_header(s, b) is None) <==> (forall|i: int|
            0 <= i < s.len() ==> (#[trigger] s[i]).0 != b),
    decreases s.len(),
{
    if s.len() == 0 {
    } else if s[0].0 == b {
    } else {
        lemma_find_header_none(s.drop_first(), b);
        if spec_find_header(s, b) is None {
            assert forall|i: int| 0 <= i < s.len() implies (#[trigger] s[i]).0 != b by {
                if i > 0 {
                    assert(s.drop_first()[i - 1] == s[i]);
                }
            }
        } else {
            assert(!(forall|j: int|
                0 <= j < s.drop_first().len() ==> (#[trigger] s.drop_first()[j]).0 != b));
            let j = choose|j: int|
                0 <= j < s.drop_first().len() && !((#[trigger] s.drop_first()[j]).0 != b);
            assert(s[j + 1] == s.drop_first()[j]);
        }
    }
}

/// A miner payment answer is present exactly when some row is miner-flagged
/// for its key.
pub proof fn lemma_find_miner_none(s: Seq<MinerPaymentRecord>, b: StacksBlockId)
    ensures
        (spec_find_miner(s, b) is None) <==> (forall|i: int|
            0 <= i < s.len() ==> !((#[trigger] s[i]).miner && s[i].block_id == b)),
    decreases s.len(),
{
    if s.len() == 0 {
    } else if s[0].miner && s[0].block_id == b {
    } else {
        lemma_find_miner_none(s.drop_first(), b);
        if spec_find_miner(s, b) is None {
            assert forall|i: int| 0 <= i < s.len() implies !((#[trigger] s[i]).miner
                && s[i].block_id == b) by {
                if i > 0 {
                    assert(s.drop_first()[i - 1] == s[i]);
                }
            }
        } else {
            assert(!(forall|j: int|
                0 <= j < s.drop_first().len() ==> !((#[trigger] s.drop_first()[j]).miner
                    && s.drop_first()[j].block_id == b)));
            let j = choose|j: int|
                0 <= j < s.drop_first().len() && ((#[trigger] s.drop_first()[j]).miner
                    && s.drop_first()[j].block_id == b);
            assert(s[j + 1] == s.drop_first()[j]);
        }
    }
}

/// Under the ledger invariant, any miner-flagged row for `b` is the one the
/// scan finds.
pub proof fn lemma_find_miner_unique(s: Seq<MinerPaymentRecord>, b: StacksBlockId)
    requires
        at_most_one_miner_record(s),
    ensures
        forall|i: int|
            0 <= i < s.len() && (#[trigger] s[i]).miner && s[i].block_id == b
                ==> spec_find_miner(s, b) == Some(s[i]),
    decreases s.len(),
{
    if s.len() == 0 {
    } else if s[0].miner && s[0].block_id == b {
        assert forall|i: int|
            0 <= i < s.len() && (#[trigger] s[i]).miner && s[i].block_id == b
                implies spec_find_miner(s, b) == Some(s[i]) by {
            if i > 0 {
                assert(s[0].block_id != s[i].block_id);
            }
        }
    } else {
        assert forall|j: int|
            0 <= j < s.drop_first().len() implies ((#[trigger] s.drop_first()[j]) == s[j + 1])
            by {};
        lemma_find_miner_unique(s.drop_first(), b);
        assert forall|i: int|
            0 <= i < s.len() && (#[trigger] s[i]).miner && s[i].block_id == b
                implies spec_find_miner(s, b) == Some(s[i]) by {
            assert(i > 0);
            assert(s.drop_first()[i - 1] == s[i]);
        }
    }
}

/// The header ledger: borrowed, read-only history of accepted blocks.
pub struct HeaderLedger {
    headers: Vec<(StacksBlockId, HeaderRecord)>,
    payments: Vec<MinerPaymentRecord>,
}

impl HeaderLedger {
    /// The header rows, in insertion order.
    pub closed spec fn header_rows(&self) -> Seq<(StacksBlockId, HeaderRecord)> {
        self.headers@
    }

    /// The payment rows, in insertion order.
    pub closed spec fn payment_rows(&self) -> Seq<MinerPaymentRecord> {
        self.payments@
    }

    /// The ledger invariant assumed by every derived query: one header row
    /// per block, at most one miner-flagged payment row per block.
    pub open spec fn wf(&self) -> bool {
        unique_header_ids(self.header_rows()) && at_most_one_miner_record(self.payment_rows())
    }

    pub open spec fn spec_header_info(&self, b: StacksBlockId) -> Option<HeaderRecord> {
        spec_find_header(self.header_rows(), b)
    }

    pub open spec fn spec_block_header_hash(&self, b: StacksBlockId) -> Option<BlockHeaderHash> {
        match self.spec_header_info(b) {
            Some(rec) => Some(rec.block_hash),
            None => None,
        }
    }

    pub open spec fn spec_burn_header_hash(&self, b: StacksBlockId) -> Option<BurnchainHeaderHash> {
        match self.spec_header_info(b) {
            Some(rec) => Some(rec.burn_header_hash),
            None => None,
        }
    }

    pub open spec fn spec_burn_block_time(&self, b: StacksBlockId) -> Option<u64> {
        match self.spec_header_info(b) {
            Some(rec) => Some(rec.burn_header_timestamp),
            None => None,
        }
    }

    pub open spec fn spec_burn_block_height(&self, b: StacksBlockId) -> Option<u32> {
        match self.spec_header_info(b) {
            Some(rec) => Some(rec.burn_header_height),
            None => None,
        }
    }

    pub open spec fn spec_vrf_seed_bytes(&self, b: StacksBlockId) -> Option<Seq<u8>> {
        match self.spec_header_info(b) {
            Some(rec) => Some(sha512_256_of(rec.proof.bytes@)),
            None => None,
        }
    }

    pub open spec fn spec_miner_address(&self, b: StacksBlockId) -> Option<StacksAddress> {
        match spec_find_miner(self.payment_rows(), b) {
            Some(rec) => Some(rec.address),
            None => None,
        }
    }

    /// An empty ledger.
    pub fn new() -> (r: HeaderLedger)
        ensures
            r.header_rows() == Seq::<(StacksBlockId, HeaderRecord)>::empty(),
            r.payment_rows() == Seq::<MinerPaymentRecord>::empty(),
            r.wf(),
    {
        HeaderLedger { headers: Vec::new(), payments: Vec::new() }
    }

    /// Record the accepted block `id`: the write-once step the surrounding
    /// system performs. Rejected by precondition if `id` was already written.
    pub fn insert_header(&mut self, id: StacksBlockId, rec: HeaderRecord)
        requires
            old(self).wf(),
            old(self).spec_header_info(id) is None,
        ensures
            final(self).header_rows() == old(self).header_rows().push((id, rec)),
            final(self).payment_rows() == old(self).payment_rows(),
            final(self).wf(),
    {
        proof {
            lemma_find_header_none(self.header_rows(), id);
        }
        self.headers.push((id, rec));
        proof {
            let s = self.header_rows();
            let olds = old(self).header_rows();
            assert forall|i: int, j: int|
                #![trigger s[i], s[j]]
                0 <= i < j < s.len() implies s[i].0 != s[j].0 by {
                if j < s.len() - 1 {
                    assert(s[i] == olds[i] && s[j] == olds[j]);
                } else {
                    assert(s[i] == olds[i]);
                }
            }
        }
    }

    /// Record a miner payment row. Rejected by precondition if a miner-flagged
    /// row for the same block is already present.
    pub fn insert_miner_payment(&mut self, rec: MinerPaymentRecord)
        requires
            old(self).wf(),
            rec.miner ==> spec_find_miner(old(self).payment_rows(), rec.block_id) is None,
        ensures
            final(self).payment_rows() == old(self).payment_rows().push(rec),
            final(self).header_rows() == old(self).header_rows(),
            final(self).wf(),
    {
        proof {
            if rec.miner {
                lemma_find_miner_none(self.payment_rows(), rec.block_id);
            }
        }
        self.payments.push(rec);
        proof {
            let s = self.payment_rows();
            let olds = old(self).payment_rows();
            assert forall|i: int, j: int|
                #![trigger s[i], s[j]]
                0 <= i < j < s.len() && s[i].miner && s[j].miner
                    implies s[i].block_id != s[j].block_id by {
                if j < s.len() - 1 {
                    assert(s[i] == olds[i] && s[j] == olds[j]);
                } else {
                    assert(s[i] == olds[i]);
                }
            }
        }
    }

    /// The header record for `id_bhh`, if one was written.
    pub fn get_stacks_header_info(&self, id_bhh: &StacksBlockId) -> (r: Option<&HeaderRecord>)
        ensures
            (match r {
                Some(rec) => self.spec_header_info(*id_bhh) == Some(*rec),
                None => self.spec_header_info(*id_bhh) is None,
            }),
    {
        let n = self.headers.len();
        let mut i: usize = 0;
        proof {
            assert(self.header_rows().skip(0) =~= self.header_rows());
        }
        while i < n
            invariant
                n == self.header_rows().len(),
                i <= n,
                spec_find_header(self.header_rows(), *id_bhh) == spec_find_header(
                    self.header_rows().skip(i as int),
                    *id_bhh,
                ),
            decreases n - i,
        {
            let row = &self.headers[i];
            proof {
                assert(self.header_rows().skip(i as int)[0] == self.header_rows()[i as int]);
            }
            if row.0 == *id_bhh {
                return Some(&row.1);
            }
            proof {
                assert(self.header_rows().skip(i as int).drop_first() =~= self.header_rows().skip(
                    i + 1,
                ));
            }
            i += 1;
        }
        None
    }

    /// The miner-flagged payment record for `id_bhh`, if one was written.
    pub fn get_miner_info(&self, id_bhh: &StacksBlockId) -> (r: Option<&MinerPaymentRecord>)
        ensures
            (match r {
                Some(rec) => spec_find_miner(self.payment_rows(), *id_bhh) == Some(*rec),
                None => spec_find_miner(self.payment_rows(), *id_bhh) is None,
            }),
    {
        let n = self.payments.len();
        let mut i: usize = 0;
        proof {
            assert(self.payment_rows().skip(0) =~= self.payment_rows());
        }
        while i < n
            invariant
                n == self.payment_rows().len(),
                i <= n,
                spec_find_miner(self.payment_rows(), *id_bhh) == spec_find_miner(
                    self.payment_rows().skip(i as int),
                    *id_bhh,
                ),
            decreases n - i,
        {
            let row = &self.payments[i];
            proof {
                assert(self.payment_rows().skip(i as int)[0] == self.payment_rows()[i as int]);
            }
            if row.miner && row.block_id == *id_bhh {
                return Some(row);
            }
            proof {
                assert(self.payment_rows().skip(i as int).drop_first()
                    =~= self.payment_rows().skip(i + 1));
            }
            i += 1;
        }
        None
    }

    /// Canonical block hash for the block: present iff its record is.
    pub fn get_stacks_block_header_hash_for_block(&self, id_bhh: &StacksBlockId) -> (r: Option<
        BlockHeaderHash,
    >)
        ensures
            r == self.spec_block_header_hash(*id_bhh),
    {
        match self.get_stacks_header_info(id_bhh) {
            Some(rec) => Some(rec.block_hash),
            None => None,
        }
    }

    /// Burn-chain header hash for the block: present iff its record is.
    pub fn get_burn_header_hash_for_block(&self, id_bhh: &StacksBlockId) -> (r: Option<
        BurnchainHeaderHash,
    >)
        ensures
            r == self.spec_burn_header_hash(*id_bhh),
    {
        match self.get_stacks_header_info(id_bhh) {
            Some(rec) => Some(rec.burn_header_hash),
            None => None,
        }
    }

    /// Burn-chain timestamp (seconds) for the block: present iff its record is.
    pub fn get_burn_block_time_for_block(&self, id_bhh: &StacksBlockId) -> (r: Option<u64>)
        ensures
            r == self.spec_burn_block_time(*id_bhh),
    {
        match self.get_stacks_header_info(id_bhh) {
            Some(rec) => Some(rec.burn_header_timestamp),
            None => None,
        }
    }

    /// Burn-chain height for the block: present iff its record is.
    pub fn get_burn_block_height_for_block(&self, id_bhh: &StacksBlockId) -> (r: Option<u32>)
        ensures
            r == self.spec_burn_block_height(*id_bhh),
    {
        match self.get_stacks_header_info(id_bhh) {
            Some(rec) => Some(rec.burn_header_height),
            None => None,
        }
    }

    /// VRF seed for the block, derived from the record's stored proof:
    /// present iff the record is.
    pub fn get_vrf_seed_for_block(&self, id_bhh: &StacksBlockId) -> (r: Option<VRFSeed>)
        ensures
            (match r {
                Some(seed) => self.spec_vrf_seed_bytes(*id_bhh) == Some(seed.bytes@),
                None => self.spec_vrf_seed_bytes(*id_bhh) is None,
            }),
    {
        match self.get_stacks_header_info(id_bhh) {
            Some(rec) => Some(VRFSeed::from_proof(&rec.proof)),
            None => None,
        }
    }

    /// Miner address for the block, looked up in the payment rows (not the
    /// header row): present iff a miner-flagged payment row names the block.
    pub fn get_miner_address(&self, id_bhh: &StacksBlockId) -> (r: Option<StacksAddress>)
        ensures
            r == self.spec_miner_address(*id_bhh),
    {
        match self.get_miner_info(id_bhh) {
            Some(rec) => Some(rec.address),
            None => None,
        }
    }
}

/// Law: for a block identifier never written — no header row and no payment
/// row names it — every derived query returns absence.
pub proof fn lemma_unwritten_block_absent(l: &HeaderLedger, b: StacksBlockId)
    requires
        forall|i: int| 0 <= i < l.header_rows().len() ==> (#[trigger] l.header_rows()[i]).0 != b,
        forall|i: int|
            0 <= i < l.payment_rows().len() ==> (#[trigger] l.payment_rows()[i]).block_id != b,
    ensures
        l.spec_block_header_hash(b) is None,
        l.spec_burn_header_hash(b) is None,
        l.spec_burn_block_time(b) is None,
        l.spec_burn_block_height(b) is None,
        l.spec_vrf_seed_bytes(b) is None,
        l.spec_miner_address(b) is None,
{
    lemma_find_header_none(l.header_rows(), b);
    lemma_find_miner_none(l.payment_rows(), b);
}

/// Law: once a header record is written for a block, the five header-derived
/// queries are all present — no partial presence — and all consistent with
/// that single record.
pub proof fn lemma_header_queries_agree(l: &HeaderLedger, b: StacksBlockId)
    ensures
        (l.spec_block_header_hash(b) is Some) <==> (l.spec_header_info(b) is Some),
        (l.spec_burn_header_hash(b) is Some) <==> (l.spec_header_info(b) is Some),
        (l.spec_burn_block_time(b) is Some) <==> (l.spec_header_info(b) is Some),
        (l.spec_burn_block_height(b) is Some) <==> (l.spec_header_info(b) is Some),
        (l.spec_vrf_seed_bytes(b) is Some) <==> (l.spec_header_info(b) is Some),
        l.spec_header_info(b) is Some ==> {
            let rec = l.spec_header_info(b).unwrap();
            &&& l.spec_block_header_hash(b) == Some(rec.block_hash)
            &&& l.spec_burn_header_hash(b) == Some(rec.burn_header_hash)
            &&& l.spec_burn_block_time(b) == Some(rec.burn_header_timestamp)
            &&& l.spec_burn_block_height(b) == Some(rec.burn_header_height)
            &&& l.spec_vrf_seed_bytes(b) == Some(sha512_256_of(rec.proof.bytes@))
        },
{
}

/// Law: the miner address for a block is present precisely when the ledger
/// holds a miner-flagged payment row for it — under the ledger invariant,
/// exactly one — and then equals that row's address.
pub proof fn lemma_miner_address_law(l: &HeaderLedger, b: StacksBlockId)
    requires
        l.wf(),
    ensures
        (l.spec_miner_address(b) is Some) <==> (exists|i: int|
            0 <= i < l.payment_rows().len() && (#[trigger] l.payment_rows()[i]).miner
                && l.payment_rows()[i].block_id == b),
        forall|i: int, j: int|
            #![trigger l.payment_rows()[i], l.payment_rows()[j]]
            (0 <= i < l.payment_rows().len() && 0 <= j < l.payment_rows().len()
                && l.payment_rows()[i].miner && l.payment_rows()[i].block_id == b
                && l.payment_rows()[j].miner && l.payment_rows()[j].block_id == b) ==> i == j,
        forall|i: int|
            (0 <= i < l.payment_rows().len() && (#[trigger] l.payment_rows()[i]).miner
                && l.payment_rows()[i].block_id == b) ==> l.spec_miner_address(b) == Some(
                l.payment_rows()[i].address,
            ),
{
    lemma_find_miner_none(l.payment_rows(), b);
    lemma_find_miner_unique(l.payment_rows(), b);
}

} // verus!
