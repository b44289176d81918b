//! Backing Store, in-memory variant: the minimal key-value contract-state
//! surface for isolated or test execution contexts.
//!
//! State lives in a side key-value table of an in-memory SQLite database, as
//! in production deployments; only the table, not a block history, exists
//! here. The store simulates exactly one block: the sentinel identifier at
//! height 0. A lower-level SQL failure is storage corruption and aborts; it
//! is never reported as absence.

use vstd::prelude::*;
use rusqlite::OptionalExtension;

use crate::types::{BlockHeaderHash, RuntimeError, StacksBlockId, TrieMerkleProof};
use crate::types::spec_sentinel_block_id;

verus! {

#[verifier::external_type_specification]
#[verifier::external_body]
pub struct ExConnection(rusqlite::Connection);

/// The key-to-value mapping the side table of a connection holds.
pub uninterp spec fn side_kv(c: rusqlite::Connection) -> Map<Seq<char>, Seq<char>>;

/// The empty key-to-value mapping.
pub open spec fn empty_kv() -> Map<Seq<char>, Seq<char>> {
    Map::empty()
}

/// Relies on rusqlite::Connection::open_in_memory and Connection::execute:
/// opens a fresh in-memory database and bootstraps its side key-value table,
/// which starts empty. Aborts on a SQL fault (storage corruption class).
#[verifier::external_body]
fn side_store_open() -> (r: rusqlite::Connection)
    ensures
        side_kv(r) == empty_kv(),
{
    let c = rusqlite::Connection::open_in_memory()
        .expect("FATAL: failed to open an in-memory side store");
    c.execute("CREATE TABLE IF NOT EXISTS data_table (key TEXT PRIMARY KEY, value TEXT)", ())
        .expect("FATAL: failed to bootstrap the side store schema");
    c
}

/// Relies on rusqlite::Connection::execute with INSERT OR REPLACE on the side
/// table's primary key: stores `value` under `key`, replacing any previous
/// value. Aborts on a SQL fault (storage corruption class).
#[verifier::external_body]
fn side_store_put(c: &mut rusqlite::Connection, key: &str, value: &str)
    ensures
        side_kv(*final(c)) == side_kv(*old(c)).insert(key@, value@),
{
    c.execute("INSERT OR REPLACE INTO data_table (key, value) VALUES (?1, ?2)", (key, value))
        .expect("FATAL: failed to write to the side store");
}

/// Relies on rusqlite::Connection::query_row and OptionalExtension::optional
/// on the side table's primary key: returns the value stored under `key`, or
/// `None` when no row carries it. Aborts on a SQL fault (storage corruption
/// class); zero rows is the routine absent case and does not abort.
#[verifier::external_body]
fn side_store_get(c: &rusqlite::Connection, key: &str) -> (r: Option<String>)
    ensures
        (match r {
            Some(v) => side_kv(*c).contains_key(key@) && v@ == side_kv(*c)[key@],
            None => !side_kv(*c).contains_key(key@),
        }),
{
    c.query_row("SELECT value FROM data_table WHERE key = ?1", (key,), |row| row.get(0))
        .optional()
        .expect("FATAL: unexpected SQL failure querying the side store")
}

/// The mapping after a batch of writes lands on `m`, in order: the last
/// write for a key wins.
pub open spec fn kv_after(
    m: Map<Seq<char>, Seq<char>>,
    items: Seq<(String, String)>,
) -> Map<Seq<char>, Seq<char>>
    decreases items.len(),
{
    if items.len() == 0 {
        m
    } else {
        kv_after(m, items.drop_last()).insert(items.last().0@, items.last().1@)
    }
}

/// The in-memory Backing Store. It exclusively owns its side store and its
/// (single, implicit) chain-tip context for its whole lifetime.
pub struct MemoryBackingStore {
    side_store: rusqlite::Connection,
}

impl View for MemoryBackingStore {
    type V = Map<Seq<char>, Seq<char>>;

    closed spec fn view(&self) -> Map<Seq<char>, Seq<char>> {
        side_kv(self.side_store)
    }
}

impl MemoryBackingStore {
    /// A fresh store: opens its in-memory side store and runs the one-time
    /// schema bootstrap on the side table, so the store is usable by any
    /// contract-state abstraction layered on top. Starts empty.
    pub fn new() -> (r: MemoryBackingStore)
        ensures
            r@ == empty_kv(),
    {
        MemoryBackingStore { side_store: side_store_open() }
    }

    /// Rebasing the in-memory variant onto any historical tip always fails:
    /// it has no block ledger, so every header hash is unknown to it.
    pub fn set_block_hash(&mut self, bhh: StacksBlockId) -> (r: Result<StacksBlockId, RuntimeError>)
        ensures
            r == Err::<StacksBlockId, RuntimeError>(
                RuntimeError::UnknownBlockHeaderHash(BlockHeaderHash(bhh.0)),
            ),
            final(self)@ == old(self)@,
    {
        Err(RuntimeError::UnknownBlockHeaderHash(BlockHeaderHash(bhh.0)))
    }

    /// The value stored under `key`, if present; absence is routine, never an
    /// error.
    pub fn get(&mut self, key: &str) -> (r: Option<String>)
        ensures
            (match r {
                Some(v) => old(self)@.contains_key(key@) && v@ == old(self)@[key@],
                None => !old(self)@.contains_key(key@),
            }),
            final(self)@ == old(self)@,
    {
        side_store_get(&self.side_store, key)
    }

    /// The value stored under `key` together with its inclusion proof. This
    /// variant makes no cryptographic commitment: the proof is always empty.
    pub fn get_with_proof(&mut self, key: &str) -> (r: Option<(String, TrieMerkleProof)>)
        ensures
            (match r {
                Some(p) => old(self)@.contains_key(key@) && p.0@ == old(self)@[key@]
                    && p.1.0@ == Seq::<u8>::empty(),
                None => !old(self)@.contains_key(key@),
            }),
            final(self)@ == old(self)@,
    {
        match side_store_get(&self.side_store, key) {
            Some(v) => Some((v, TrieMerkleProof(Vec::new()))),
            None => None,
        }
    }

    /// The identifier of the block at `height`: the in-memory variant
    /// simulates exactly one block, the sentinel at height 0.
    pub fn get_block_at_height(&mut self, height: u32) -> (r: Option<StacksBlockId>)
        ensures
            r == (if height == 0 {
                Some(spec_sentinel_block_id())
            } else {
                None::<StacksBlockId>
            }),
            final(self)@ == old(self)@,
    {
        if height == 0 {
            Some(StacksBlockId::sentinel())
        } else {
            None
        }
    }

    /// The open chain tip: always the sentinel identifier.
    pub fn get_open_chain_tip(&mut self) -> (r: StacksBlockId)
        ensures
            r == spec_sentinel_block_id(),
            final(self)@ == old(self)@,
    {
        StacksBlockId::sentinel()
    }

    /// Height of the open chain tip: always 0.
    pub fn get_open_chain_tip_height(&mut self) -> (r: u32)
        ensures
            r == 0u32,
            final(self)@ == old(self)@,
    {
        0
    }

    /// Height of the current block context: always 0.
    pub fn get_current_block_height(&mut self) -> (r: u32)
        ensures
            r == 0u32,
            final(self)@ == old(self)@,
    {
        0
    }

    /// Direct access to the side store connection, for the contract-state
    /// layers stacked on top of this store.
    pub fn get_side_store(&mut self) -> (r: &rusqlite::Connection)
        ensures
            side_kv(*r) == old(self)@,
            final(self)@ == old(self)@,
    {
        &self.side_store
    }

    /// Insert or overwrite each pair in order; within the batch, the last
    /// write for a duplicate key wins.
    pub fn put_all(&mut self, items: Vec<(String, String)>)
        ensures
            final(self)@ == kv_after(old(self)@, items@),
    {
        let n = items.len();
        let mut i: usize = 0;
        proof {
            assert(items@.take(0) =~= Seq::<(String, String)>::empty());
        }
        while i < n
            invariant
                n == items@.len(),
                i <= n,
                self@ == kv_after(old(self)@, items@.take(i as int)),
            decreases n - i,
        {
            let pair = &items[i];
            side_store_put(&mut self.side_store, pair.0.as_str(), pair.1.as_str());
            proof {
                assert(items@.take(i + 1).drop_last() =~= items@.take(i as int));
                assert(items@.take(i + 1).last() == items@[i as int]);
            }
            i += 1;
        }
        proof {
            assert(items@.take(n as int) =~= items@);
        }
    }
}

/// Law (round trip): after a batch holding `(k, v)` as its only entry lands,
/// the store maps `k` to `v` — so `get(k)` returns `v` and
/// `get_with_proof(k)` returns `v` with the empty proof.
pub proof fn lemma_put_get_round_trip(m: Map<Seq<char>, Seq<char>>, k: String, v: String)
    ensures
        kv_after(m, seq![(k, v)]).contains_key(k@),
        kv_after(m, seq![(k, v)])[k@] == v@,
{
    assert(seq![(k, v)].drop_last() =~= Seq::<(String, String)>::empty());
}

/// Law (last write wins): when one batch writes `k` twice, the later value
/// stands, so a following `get(k)` returns it.
pub proof fn lemma_put_all_last_write_wins(
    m: Map<Seq<char>, Seq<char>>,
    k: String,
    v1: String,
    v2: String,
)
    ensures
        kv_after(m, seq![(k, v1), (k, v2)]).contains_key(k@),
        kv_after(m, seq![(k, v1), (k, v2)])[k@] == v2@,
{
    assert(seq![(k, v1), (k, v2)].drop_last() =~= seq![(k, v1)]);
}

} // verus!
