use clarity_db::sortition::{
    BurnStateDb, ForkContext, SortitionDBConn, SortitionHandleConn, SortitionHandleTx,
    SortitionLedger, SortitionSnapshot,
};
use clarity_db::types::{BurnchainHeaderHash, SortitionId};

/// Two forks: fork 1 holds heights 0..=2, fork 2 holds heights 0..=1.
fn two_fork_ledger() -> SortitionLedger {
    let mut ledger = SortitionLedger::new();
    ledger.insert_snapshot(SortitionSnapshot {
        sortition_id: SortitionId(10),
        fork_id: 1,
        block_height: 0,
        burn_header_hash: BurnchainHeaderHash(100),
    });
    ledger.insert_snapshot(SortitionSnapshot {
        sortition_id: SortitionId(11),
        fork_id: 1,
        block_height: 1,
        burn_header_hash: BurnchainHeaderHash(101),
    });
    ledger.insert_snapshot(SortitionSnapshot {
        sortition_id: SortitionId(12),
        fork_id: 1,
        block_height: 2,
        burn_header_hash: BurnchainHeaderHash(102),
    });
    ledger.insert_snapshot(SortitionSnapshot {
        sortition_id: SortitionId(20),
        fork_id: 2,
        block_height: 0,
        burn_header_hash: BurnchainHeaderHash(200),
    });
    ledger.insert_snapshot(SortitionSnapshot {
        sortition_id: SortitionId(21),
        fork_id: 2,
        block_height: 1,
        burn_header_hash: BurnchainHeaderHash(201),
    });
    ledger
}

#[test]
fn burn_block_height_present_iff_snapshot_exists() {
    let conn = SortitionDBConn { ledger: two_fork_ledger() };
    assert_eq!(conn.get_burn_block_height(&SortitionId(12)), Some(2));
    assert_eq!(conn.get_burn_block_height(&SortitionId(21)), Some(1));
    assert_eq!(conn.get_burn_block_height(&SortitionId(99)), None);
}

#[test]
fn readonly_header_hash_follows_requested_fork() {
    let conn = SortitionDBConn { ledger: two_fork_ledger() };
    assert_eq!(
        conn.get_burn_header_hash(1, &SortitionId(12)),
        Some(BurnchainHeaderHash(101))
    );
    assert_eq!(
        conn.get_burn_header_hash(1, &SortitionId(21)),
        Some(BurnchainHeaderHash(201))
    );
}

#[test]
fn header_hash_absent_above_fork_tip_or_unknown_fork() {
    let conn = SortitionDBConn { ledger: two_fork_ledger() };
    // Height 2 exists on fork 1 but lies above fork 2's tip at height 1.
    assert_eq!(conn.get_burn_header_hash(2, &SortitionId(21)), None);
    // Unknown sortition id: nothing to rebase onto.
    assert_eq!(conn.get_burn_header_hash(0, &SortitionId(99)), None);
}

#[test]
fn transactional_query_reads_target_fork_and_keeps_context() {
    // Write transaction open on fork A (fork 1, tip at height 2).
    let tx = SortitionHandleTx {
        ledger: two_fork_ledger(),
        context: ForkContext { chain_tip: SortitionId(12) },
    };
    // Query height 1 on fork B (fork 2): the answer is fork B's snapshot.
    assert_eq!(
        tx.get_burn_header_hash(1, &SortitionId(21)),
        Some(BurnchainHeaderHash(201))
    );
    // The transaction's own fork context is unchanged.
    assert_eq!(tx.context, ForkContext { chain_tip: SortitionId(12) });
}

#[test]
fn both_modes_answer_identically() {
    let tx = SortitionHandleTx {
        ledger: two_fork_ledger(),
        context: ForkContext { chain_tip: SortitionId(10) },
    };
    let conn = SortitionDBConn { ledger: two_fork_ledger() };
    for height in 0..3u32 {
        for id in [10u64, 11, 12, 20, 21, 99] {
            assert_eq!(
                tx.get_burn_header_hash(height, &SortitionId(id)),
                conn.get_burn_header_hash(height, &SortitionId(id))
            );
        }
    }
    for id in [10u64, 21, 99] {
        assert_eq!(
            tx.get_burn_block_height(&SortitionId(id)),
            conn.get_burn_block_height(&SortitionId(id))
        );
    }
}

#[test]
fn handle_conn_scopes_queries_to_its_context() {
    let ledger = two_fork_ledger();
    let handle = SortitionHandleConn::new(&ledger, ForkContext { chain_tip: SortitionId(21) });
    let snap = handle
        .get_block_snapshot_by_height(0)
        .expect("fork 2 has a snapshot at height 0");
    assert_eq!(snap.burn_header_hash, BurnchainHeaderHash(200));
    assert!(handle.get_block_snapshot_by_height(2).is_none());
}

#[test]
fn ledger_point_lookups() {
    let ledger = two_fork_ledger();
    let snap = ledger
        .get_block_snapshot(&SortitionId(11))
        .expect("snapshot 11 exists");
    assert_eq!(snap.fork_id, 1);
    assert_eq!(snap.block_height, 1);
    assert!(ledger.get_block_snapshot(&SortitionId(0)).is_none());
    let snap = ledger
        .get_snapshot_at_height(2, 1)
        .expect("fork 2 height 1 exists");
    assert_eq!(snap.sortition_id, SortitionId(21));
    assert!(ledger.get_snapshot_at_height(3, 0).is_none());
}

#[test]
fn empty_ledger_answers_absence() {
    let conn = SortitionDBConn { ledger: SortitionLedger::new() };
    assert_eq!(conn.get_burn_block_height(&SortitionId(1)), None);
    assert_eq!(conn.get_burn_header_hash(0, &SortitionId(1)), None);
}
