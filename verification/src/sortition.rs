//! Burn-State Accessor: answers "what was the burn-chain state at height H
//! within sortition fork F".
//!
//! One contract, two implementations: `SortitionHandleTx` for callers that
//! hold an open write transaction against the sortition ledger, and
//! `SortitionDBConn` for callers that do not. The transactional mode never
//! serves height queries through its own write cursor: it takes an
//! independent read-only view of the index with a private copy of the fork
//! context, rebased to the query's target fork. "Not found" and a lower-level
//! lookup failure are both reported as absence here.

use vstd::prelude::*;

use crate::types::{BurnchainHeaderHash, SortitionId};

verus! {

/// One sortition snapshot: the burn-chain state recorded at one position of
/// one fork. Produced by the sortition ledger; read-only here.
#[derive(Clone, Copy, Debug)]
pub struct SortitionSnapshot {
    /// Fork-qualified identifier of this snapshot.
    pub sortition_id: SortitionId,
    /// The fork this snapshot lies on.
    pub fork_id: u64,
    /// Burn-chain block height of this snapshot.
    pub block_height: u64,
    /// Burn-chain header hash at this snapshot.
    pub burn_header_hash: BurnchainHeaderHash,
}

/// A fork context: the cursor that scopes height queries to one fork tip.
#[derive(Clone, Copy, PartialEq, Eq, Structural, Debug)]
pub struct ForkContext {
    pub chain_tip: SortitionId,
}

/// The first snapshot carrying `id`, scanning rows in order.
pub open spec fn spec_find_snapshot(
    s: Seq<SortitionSnapshot>,
    id: SortitionId,
) -> Option<SortitionSnapshot>
    decreases s.len(),
{
    if s.len() == 0 {
        None
    } else if s[0].sortition_id == id {
        Some(s[0])
    } else {
        spec_find_snapshot(s.drop_first(), id)
    }
}

/// The first snapshot at `height` on fork `fork_id`, scanning rows in order.
pub open spec fn spec_find_snapshot_at_height(
    s: Seq<SortitionSnapshot>,
    fork_id: u64,
    height: u64,
) -> Option<SortitionSnapshot>
    decreases s.len(),
{
    if s.len() == 0 {
        None
    } else if s[0].fork_id == fork_id && s[0].block_height == height {
        Some(s[0])
    } else {
        spec_find_snapshot_at_height(s.drop_first(), fork_id, height)
    }
}

/// No two snapshots carry the same sortition id.
pub open spec fn unique_sortition_ids(s: Seq<SortitionSnapshot>) -> bool {
    forall|i: int, j: int|
        #![trigger s[i], s[j]]
        0 <= i < j < s.len() ==> s[i].sortition_id != s[j].sortition_id
}

/// No two snapshots share a fork position.
pub open spec fn unique_fork_positions(s: Seq<SortitionSnapshot>) -> bool {
    forall|i: int, j: int|
        #![trigger s[i], s[j]]
        0 <= i < j < s.len() ==> !(s[i].fork_id == s[j].fork_id && s[i].block_height
            == s[j].block_height)
}

/// A snapshot is absent exactly when no row carries its sortition id.
pub proof fn lemma_find_snapshot_none(s: Seq<SortitionSnapshot>, id: SortitionId)
    ensures
        (spec_find_snapshot(s, id) is None) <==> (forall|i: int|
            0 <= i < s.len() ==> (#[trigger] s[i]).sortition_id != id),
    decreases s.len(),
{
    if s.len() == 0 {
    } else if s[0].sortition_id == id {
    } else {
        lemma_find_snapshot_none(s.drop_first(), id);
        assert forall|j: int|
            0 <= j < s.drop_first().len() implies ((#[trigger] s.drop_first()[j]) == s[j + 1])
            by {};
        if spec_find_snapshot(s, id) is None {
            assert forall|i: int| 0 <= i < s.len() implies (#[trigger] s[i]).sortition_id != id by {
                if i > 0 {
                    assert(s.drop_first()[i - 1] == s[i]);
                }
            }
        }
    }
}

/// A fork position is absent exactly when no row lies at it.
pub proof fn lemma_find_snapshot_at_height_none(s: Seq<SortitionSnapshot>, fork_id: u64, height: u64)
    ensures
        (spec_find_snapshot_at_height(s, fork_id, height) is None) <==> (forall|i: int|
            0 <= i < s.len() ==> !((#[trigger] s[i]).fork_id == fork_id && s[i].block_height
                == height)),
    decreases s.len(),
{
    if s.len() == 0 {
    } else if s[0].fork_id == fork_id && s[0].block_height == height {
    } else {
        lemma_find_snapshot_at_height_none(s.drop_first(), fork_id, height);
        assert forall|j: int|
            0 <= j < s.drop_first().len() implies ((#[trigger] s.drop_first()[j]) == s[j + 1])
            by {};
        if spec_find_snapshot_at_height(s, fork_id, height) is None {
            assert forall|i: int| 0 <= i < s.len() implies !((#[trigger] s[i]).fork_id == fork_id
                && s[i].block_height == height) by {
                if i > 0 {
                    assert(s.drop_first()[i - 1] == s[i]);
                }
            }
        }
    }
}

/// Under position uniqueness, any row at a fork position is the one the scan
/// finds.
pub proof fn lemma_find_snapshot_at_height_unique(
    s: Seq<SortitionSnapshot>,
    fork_id: u64,
    height: u64,
)
    requires
        unique_fork_positions(s),
    ensures
        forall|i: int|
            0 <= i < s.len() && (#[trigger] s[i]).fork_id == fork_id && s[i].block_height == height
                ==> spec_find_snapshot_at_height(s, fork_id, height) == Some(s[i]),
    decreases s.len(),
{
    if s.len() == 0 {
    } else if s[0].fork_id == fork_id && s[0].block_height == height {
        assert forall|i: int|
            0 <= i < s.len() && (#[trigger] s[i]).fork_id == fork_id && s[i].block_height == height
                implies spec_find_snapshot_at_height(s, fork_id, height) == Some(s[i]) by {
            if i > 0 {
                assert(!(s[0].fork_id == s[i].fork_id && s[0].block_height == s[i].block_height));
            }
        }
    } else {
        assert forall|j: int|
            0 <= j < s.drop_first().len() implies ((#[trigger] s.drop_first()[j]) == s[j + 1])
            by {};
        lemma_find_snapshot_at_height_unique(s.drop_first(), fork_id, height);
        assert forall|i: int|
            0 <= i < s.len() && (#[trigger] s[i]).fork_id == fork_id && s[i].block_height == height
                implies spec_find_snapshot_at_height(s, fork_id, height) == Some(s[i]) by {
            assert(i > 0);
            assert(s.drop_first()[i - 1] == s[i]);
        }
    }
}

/// The sortition ledger: the versioned index of snapshots. It supports any
/// number of concurrent readers beside one writer; this layer only reads it.
pub struct SortitionLedger {
    snapshots: Vec<SortitionSnapshot>,
}

/// The snapshot a height query resolves to: rebase to the fork of `tip`, then
/// take the snapshot of that fork at `height`, provided the height does not
/// exceed the tip. Absent if `tip` is unknown or nothing lies there.
pub open spec fn spec_snapshot_at_height(
    l: SortitionLedger,
    tip: SortitionId,
    height: u64,
) -> Option<SortitionSnapshot> {
    match spec_find_snapshot(l.rows(), tip) {
        Some(t) => if height <= t.block_height {
            spec_find_snapshot_at_height(l.rows(), t.fork_id, height)
        } else {
            None
        },
        None => None,
    }
}

/// What `get_burn_block_height` answers: the stored height of the snapshot
/// named by `id`, truncated to 32 bits as the caller's interface carries it.
pub open spec fn spec_burn_block_height(l: SortitionLedger, id: SortitionId) -> Option<u32> {
    match spec_find_snapshot(l.rows(), id) {
        Some(snap) => Some(snap.block_height as u32),
        None => None,
    }
}

/// What `get_burn_header_hash` answers: the burn header hash of the fork
/// position that `height` names along the fork of `id`.
pub open spec fn spec_burn_header_hash(
    l: SortitionLedger,
    height: u32,
    id: SortitionId,
) -> Option<BurnchainHeaderHash> {
    match spec_snapshot_at_height(l, id, height as u64) {
        Some(snap) => Some(snap.burn_header_hash),
        None => None,
    }
}

impl SortitionLedger {
    /// The snapshot rows, in insertion order.
    pub closed spec fn rows(&self) -> Seq<SortitionSnapshot> {
        self.snapshots@
    }

    /// The ledger invariant: sortition ids are unique, and each fork holds at
    /// most one snapshot per height.
    pub open spec fn wf(&self) -> bool {
        unique_sortition_ids(self.rows()) && unique_fork_positions(self.rows())
    }

    /// An empty ledger.
    pub fn new() -> (r: SortitionLedger)
        ensures
            r.rows() == Seq::<SortitionSnapshot>::empty(),
            r.wf(),
    {
        SortitionLedger { snapshots: Vec::new() }
    }

    /// Record a snapshot the sortition ledger produced. Rejected by
    /// precondition if its sortition id or its fork position is taken.
    pub fn insert_snapshot(&mut self, snap: SortitionSnapshot)
        requires
            old(self).wf(),
            spec_find_snapshot(old(self).rows(), snap.sortition_id) is None,
            spec_find_snapshot_at_height(old(self).rows(), snap.fork_id, snap.block_height)
                is None,
        ensures
            final(self).rows() == old(self).rows().push(snap),
            final(self).wf(),
    {
        proof {
            lemma_find_snapshot_none(self.rows(), snap.sortition_id);
            lemma_find_snapshot_at_height_none(self.rows(), snap.fork_id, snap.block_height);
        }
        self.snapshots.push(snap);
        proof {
            let s = self.rows();
            let olds = old(self).rows();
            assert forall|i: int, j: int|
                #![trigger s[i], s[j]]
                0 <= i < j < s.len() implies (s[i].sortition_id != s[j].sortition_id && !(
                s[i].fork_id == s[j].fork_id && s[i].block_height == s[j].block_height)) by {
                if j < s.len() - 1 {
                    assert(s[i] == olds[i] && s[j] == olds[j]);
                } else {
                    assert(s[i] == olds[i]);
                }
            }
        }
    }

    /// Point lookup of the snapshot named by `id`.
    pub fn get_block_snapshot(&self, id: &SortitionId) -> (r: Option<SortitionSnapshot>)
        ensures
            r == spec_find_snapshot(self.rows(), *id),
    {
        let n = self.snapshots.len();
        let mut i: usize = 0;
        proof {
            assert(self.rows().skip(0) =~= self.rows());
        }
        while i < n
            invariant
                n == self.rows().len(),
                i <= n,
                spec_find_snapshot(self.rows(), *id) == spec_find_snapshot(
                    self.rows().skip(i as int),
                    *id,
                ),
            decreases n - i,
        {
            let row = &self.snapshots[i];
            proof {
                assert(self.rows().skip(i as int)[0] == self.rows()[i as int]);
            }
            if row.sortition_id == *id {
                return Some(*row);
            }
            proof {
                assert(self.rows().skip(i as int).drop_first() =~= self.rows().skip(i + 1));
            }
            i += 1;
        }
        None
    }

    /// Point lookup of the snapshot at `height` on fork `fork_id`.
    pub fn get_snapshot_at_height(&self, fork_id: u64, height: u64) -> (r: Option<
        SortitionSnapshot,
    >)
        ensures
            r == spec_find_snapshot_at_height(self.rows(), fork_id, height),
    {
        let n = self.snapshots.len();
        let mut i: usize = 0;
        proof {
            assert(self.rows().skip(0) =~= self.rows());
        }
        while i < n
            invariant
                n == self.rows().len(),
                i <= n,
                spec_find_snapshot_at_height(self.rows(), fork_id, height)
                    == spec_find_snapshot_at_height(self.rows().skip(i as int), fork_id, height),
            decreases n - i,
        {
            let row = &self.snapshots[i];
            proof {
                assert(self.rows().skip(i as int)[0] == self.rows()[i as int]);
            }
            if row.fork_id == fork_id && row.block_height == height {
                return Some(*row);
            }
            proof {
                assert(self.rows().skip(i as int).drop_first() =~= self.rows().skip(i + 1));
            }
            i += 1;
        }
        None
    }
}

/// An independent read-only view of the sortition index, scoped to one fork
/// context. It holds a private copy of the context, so rebasing it never
/// touches the context it was copied from.
pub struct SortitionHandleConn<'a> {
    pub index: &'a SortitionLedger,
    pub context: ForkContext,
}

impl<'a> SortitionHandleConn<'a> {
    /// Open a read-only view of `index` under the given context.
    pub fn new(index: &'a SortitionLedger, context: ForkContext) -> (r: SortitionHandleConn<'a>)
        ensures
            *r.index == *index,
            r.context == context,
    {
        SortitionHandleConn { index, context }
    }

    /// Open a read-only view directly scoped to `sortition_id`.
    pub fn open_reader(conn: &'a SortitionDBConn, sortition_id: &SortitionId) -> (r:
        SortitionHandleConn<'a>)
        ensures
            *r.index == conn.ledger,
            r.context == (ForkContext { chain_tip: *sortition_id }),
    {
        SortitionHandleConn { index: &conn.ledger, context: ForkContext { chain_tip: *sortition_id } }
    }

    /// The snapshot at `height` along the fork this view is scoped to.
    pub fn get_block_snapshot_by_height(&self, height: u64) -> (r: Option<SortitionSnapshot>)
        ensures
            r == spec_snapshot_at_height(*self.index, self.context.chain_tip, height),
    {
        match self.index.get_block_snapshot(&self.context.chain_tip) {
            Some(tip) => {
                if height <= tip.block_height {
                    self.index.get_snapshot_at_height(tip.fork_id, height)
                } else {
                    None
                }
            },
            None => None,
        }
    }
}

/// The Burn-State Accessor contract: identical in both access modes.
pub trait BurnStateDb {
    /// The sortition ledger this accessor answers from.
    spec fn ledger_view(&self) -> SortitionLedger;

    /// Stored burn-chain height of the snapshot named by `sortition_id`:
    /// present iff such a snapshot exists.
    fn get_burn_block_height(&self, sortition_id: &SortitionId) -> (r: Option<u32>)
        ensures
            r == spec_burn_block_height(self.ledger_view(), *sortition_id),
    ;

    /// Burn header hash at `height` along the fork identified by
    /// `sortition_id`: present iff that fork holds a snapshot there, no
    /// higher than the fork tip.
    fn get_burn_header_hash(&self, height: u32, sortition_id: &SortitionId) -> (r: Option<
        BurnchainHeaderHash,
    >)
        ensures
            r == spec_burn_header_hash(self.ledger_view(), height, *sortition_id),
    ;
}

/// Transactional mode: the caller holds the one open write transaction on
/// the sortition ledger; `context` is that transaction's fork cursor.
pub struct SortitionHandleTx {
    pub ledger: SortitionLedger,
    pub context: ForkContext,
}

impl BurnStateDb for SortitionHandleTx {
    open spec fn ledger_view(&self) -> SortitionLedger {
        self.ledger
    }

    fn get_burn_block_height(&self, sortition_id: &SortitionId) -> (r: Option<u32>) {
        match self.ledger.get_block_snapshot(sortition_id) {
            Some(snap) => Some(#[verifier::truncate] (snap.block_height as u32)),
            None => None,
        }
    }

    fn get_burn_header_hash(&self, height: u32, sortition_id: &SortitionId) -> (r: Option<
        BurnchainHeaderHash,
    >) {
        // Height queries must not run against the write cursor: take an
        // independent read-only view of the same index, and rebase a private
        // copy of the fork context onto the query's target fork.
        let readonly_index: &SortitionLedger = &self.ledger;
        let mut context = self.context;
        context.chain_tip = *sortition_id;
        let db_handle = SortitionHandleConn::new(readonly_index, context);
        match db_handle.get_block_snapshot_by_height(height as u64) {
            Some(snap) => Some(snap.burn_header_hash),
            None => None,
        }
    }
}

/// Read-only mode: no write transaction is active; queries open a reader
/// scoped directly to the requested fork.
pub struct SortitionDBConn {
    pub ledger: SortitionLedger,
}

impl BurnStateDb for SortitionDBConn {
    open spec fn ledger_view(&self) -> SortitionLedger {
        self.ledger
    }

    fn get_burn_block_height(&self, sortition_id: &SortitionId) -> (r: Option<u32>) {
        match self.ledger.get_block_snapshot(sortition_id) {
            Some(snap) => Some(#[verifier::truncate] (snap.block_height as u32)),
            None => None,
        }
    }

    fn get_burn_header_hash(&self, height: u32, sortition_id: &SortitionId) -> (r: Option<
        BurnchainHeaderHash,
    >) {
        let db_handle = SortitionHandleConn::open_reader(self, sortition_id);
        match db_handle.get_block_snapshot_by_height(height as u64) {
            Some(snap) => Some(snap.burn_header_hash),
            None => None,
        }
    }
}

/// Law (mode agreement): over the same ledger, the transactional and the
/// read-only accessor answer every burn-state query identically, whatever
/// fork the write transaction's own context points at.
pub proof fn lemma_modes_agree(
    tx: &SortitionHandleTx,
    conn: &SortitionDBConn,
    height: u32,
    id: SortitionId,
)
    requires
        tx.ledger == conn.ledger,
    ensures
        spec_burn_block_height(tx.ledger_view(), id) == spec_burn_block_height(
            conn.ledger_view(),
            id,
        ),
        spec_burn_header_hash(tx.ledger_view(), height, id) == spec_burn_header_hash(
            conn.ledger_view(),
            height,
            id,
        ),
{
}

/// Law (snapshot isolation): while a write transaction is open on fork A, a
/// height query for fork B answers from fork B's own snapshot — if the ledger
/// holds a snapshot `tip` for B and row `i` lies on B's fork at `height`, no
/// higher than `tip`, the answer is row `i`'s burn header hash. The
/// transaction's own context plays no part in the answer (it is not even a
/// parameter of the query's meaning), and the query, taking the transaction
/// read-only, leaves that context unchanged.
pub proof fn lemma_rebase_reads_target_fork(
    l: &SortitionLedger,
    b: SortitionId,
    height: u32,
    i: int,
)
    requires
        l.wf(),
        spec_find_snapshot(l.rows(), b) is Some,
        0 <= i < l.rows().len(),
        l.rows()[i].fork_id == spec_find_snapshot(l.rows(), b).unwrap().fork_id,
        l.rows()[i].block_height == height as u64,
        height as u64 <= spec_find_snapshot(l.rows(), b).unwrap().block_height,
    ensures
        spec_burn_header_hash(*l, height, b) == Some(l.rows()[i].burn_header_hash),
{
    let tip = spec_find_snapshot(l.rows(), b).unwrap();
    lemma_find_snapshot_at_height_unique(l.rows(), tip.fork_id, height as u64);
}

} // verus!
