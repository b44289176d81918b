use clarity_db::headers::{HeaderLedger, HeaderRecord, MinerPaymentRecord};
use clarity_db::types::{
    BlockHeaderHash, BurnchainHeaderHash, StacksAddress, StacksBlockId, VRFProof, VRFSeed,
};

fn sample_record(n: u64) -> HeaderRecord {
    HeaderRecord {
        block_hash: BlockHeaderHash(n),
        burn_header_hash: BurnchainHeaderHash(n + 1),
        burn_header_timestamp: 1_600_000_000 + n,
        burn_header_height: 100 + n as u32,
        proof: VRFProof { bytes: vec![n as u8; 4] },
    }
}

#[test]
fn unwritten_block_all_queries_absent() {
    let ledger = HeaderLedger::new();
    let b = StacksBlockId(9);
    assert_eq!(ledger.get_stacks_block_header_hash_for_block(&b), None);
    assert_eq!(ledger.get_burn_header_hash_for_block(&b), None);
    assert_eq!(ledger.get_burn_block_time_for_block(&b), None);
    assert_eq!(ledger.get_burn_block_height_for_block(&b), None);
    assert!(ledger.get_vrf_seed_for_block(&b).is_none());
    assert_eq!(ledger.get_miner_address(&b), None);
}

#[test]
fn other_blocks_stay_absent_after_a_write() {
    let mut ledger = HeaderLedger::new();
    ledger.insert_header(StacksBlockId(1), sample_record(1));
    let other = StacksBlockId(2);
    assert_eq!(ledger.get_stacks_block_header_hash_for_block(&other), None);
    assert_eq!(ledger.get_burn_block_height_for_block(&other), None);
    assert_eq!(ledger.get_miner_address(&other), None);
}

#[test]
fn written_block_all_queries_present_and_consistent() {
    let mut ledger = HeaderLedger::new();
    let b = StacksBlockId(1);
    ledger.insert_header(b, sample_record(1));
    assert_eq!(
        ledger.get_stacks_block_header_hash_for_block(&b),
        Some(BlockHeaderHash(1))
    );
    assert_eq!(
        ledger.get_burn_header_hash_for_block(&b),
        Some(BurnchainHeaderHash(2))
    );
    assert_eq!(
        ledger.get_burn_block_time_for_block(&b),
        Some(1_600_000_001)
    );
    assert_eq!(ledger.get_burn_block_height_for_block(&b), Some(101));
    let seed = ledger.get_vrf_seed_for_block(&b).expect("seed must be present");
    assert_eq!(
        seed,
        VRFSeed::from_proof(&VRFProof { bytes: vec![1u8; 4] })
    );
}

#[test]
fn vrf_seed_is_digest_of_proof() {
    // SHA-512/256 test vectors: the seed must be the digest of the stored
    // proof bytes, not the bytes themselves.
    let empty_digest: [u8; 32] = [
        0xc6, 0x72, 0xb8, 0xd1, 0xef, 0x56, 0xed, 0x28, 0xab, 0x87, 0xc3, 0x62, 0x2c, 0x51,
        0x14, 0x06, 0x9b, 0xdd, 0x3a, 0xd7, 0xb8, 0xf9, 0x73, 0x74, 0x98, 0xd0, 0xc0, 0x1e,
        0xce, 0xf0, 0x96, 0x7a,
    ];
    let seed = VRFSeed::from_proof(&VRFProof { bytes: vec![] });
    assert_eq!(seed.bytes, empty_digest.to_vec());

    let abc_digest: [u8; 32] = [
        0x53, 0x04, 0x8e, 0x26, 0x81, 0x94, 0x1e, 0xf9, 0x9b, 0x2e, 0x29, 0xb7, 0x6b, 0x4c,
        0x7d, 0xab, 0xe4, 0xc2, 0xd0, 0xc6, 0x34, 0xfc, 0x6d, 0x46, 0xe0, 0xe2, 0xf1, 0x31,
        0x07, 0xe7, 0xaf, 0x23,
    ];
    let seed = VRFSeed::from_proof(&VRFProof {
        bytes: vec![b'a', b'b', b'c'],
    });
    assert_eq!(seed.bytes, abc_digest.to_vec());
}

#[test]
fn vrf_seed_queried_through_ledger_matches_vector() {
    let mut ledger = HeaderLedger::new();
    let b = StacksBlockId(5);
    ledger.insert_header(
        b,
        HeaderRecord {
            block_hash: BlockHeaderHash(5),
            burn_header_hash: BurnchainHeaderHash(6),
            burn_header_timestamp: 0,
            burn_header_height: 0,
            proof: VRFProof {
                bytes: vec![b'a', b'b', b'c'],
            },
        },
    );
    let seed = ledger.get_vrf_seed_for_block(&b).expect("seed must be present");
    assert_eq!(seed.bytes[0], 0x53);
    assert_eq!(seed.bytes.len(), 32);
    assert_ne!(seed.bytes, vec![b'a', b'b', b'c']);
}

#[test]
fn miner_address_requires_miner_flag() {
    let mut ledger = HeaderLedger::new();
    let b = StacksBlockId(1);
    ledger.insert_header(b, sample_record(1));
    // A payment row without the miner-slot flag does not answer the query.
    ledger.insert_miner_payment(MinerPaymentRecord {
        block_id: b,
        miner: false,
        address: StacksAddress(700),
    });
    assert_eq!(ledger.get_miner_address(&b), None);
    // The single miner-flagged row does.
    ledger.insert_miner_payment(MinerPaymentRecord {
        block_id: b,
        miner: true,
        address: StacksAddress(800),
    });
    assert_eq!(ledger.get_miner_address(&b), Some(StacksAddress(800)));
}

#[test]
fn miner_address_is_per_block() {
    let mut ledger = HeaderLedger::new();
    ledger.insert_miner_payment(MinerPaymentRecord {
        block_id: StacksBlockId(1),
        miner: true,
        address: StacksAddress(11),
    });
    ledger.insert_miner_payment(MinerPaymentRecord {
        block_id: StacksBlockId(2),
        miner: true,
        address: StacksAddress(22),
    });
    assert_eq!(
        ledger.get_miner_address(&StacksBlockId(1)),
        Some(StacksAddress(11))
    );
    assert_eq!(
        ledger.get_miner_address(&StacksBlockId(2)),
        Some(StacksAddress(22))
    );
    assert_eq!(ledger.get_miner_address(&StacksBlockId(3)), None);
}

#[test]
fn header_info_returns_the_written_record() {
    let mut ledger = HeaderLedger::new();
    let b = StacksBlockId(4);
    ledger.insert_header(b, sample_record(4));
    let rec = ledger
        .get_stacks_header_info(&b)
        .expect("record must be present");
    assert_eq!(rec.block_hash, BlockHeaderHash(4));
    assert_eq!(rec.burn_header_height, 104);
    assert!(ledger.get_stacks_header_info(&StacksBlockId(5)).is_none());
}
