use clarity_db::store::MemoryBackingStore;
use clarity_db::types::{BlockHeaderHash, RuntimeError, StacksBlockId};

#[test]
fn empty_store_scenario() {
    let mut store = MemoryBackingStore::new();
    assert_eq!(store.get_open_chain_tip_height(), 0);
    assert_eq!(store.get_current_block_height(), 0);
    assert_eq!(store.get("missing"), None);
}

#[test]
fn open_chain_tip_is_sentinel() {
    let mut store = MemoryBackingStore::new();
    assert_eq!(store.get_open_chain_tip(), StacksBlockId::sentinel());
}

#[test]
fn get_block_at_height_zero_is_sentinel() {
    let mut store = MemoryBackingStore::new();
    assert_eq!(store.get_block_at_height(0), Some(StacksBlockId::sentinel()));
}

#[test]
fn get_block_at_positive_height_is_absent() {
    let mut store = MemoryBackingStore::new();
    assert_eq!(store.get_block_at_height(1), None);
    assert_eq!(store.get_block_at_height(7), None);
    assert_eq!(store.get_block_at_height(u32::MAX), None);
}

#[test]
fn set_block_hash_always_fails() {
    let mut store = MemoryBackingStore::new();
    assert_eq!(
        store.set_block_hash(StacksBlockId(42)),
        Err(RuntimeError::UnknownBlockHeaderHash(BlockHeaderHash(42)))
    );
    assert_eq!(
        store.set_block_hash(StacksBlockId::sentinel()),
        Err(RuntimeError::UnknownBlockHeaderHash(BlockHeaderHash(
            StacksBlockId::sentinel().0
        )))
    );
}

#[test]
fn put_get_round_trip() {
    let mut store = MemoryBackingStore::new();
    store.put_all(vec![("k".to_string(), "v".to_string())]);
    assert_eq!(store.get("k"), Some("v".to_string()));
}

#[test]
fn get_with_proof_returns_value_and_empty_proof() {
    let mut store = MemoryBackingStore::new();
    store.put_all(vec![("k".to_string(), "v".to_string())]);
    let (value, proof) = store.get_with_proof("k").expect("value must be present");
    assert_eq!(value, "v".to_string());
    assert!(proof.0.is_empty());
    assert_eq!(store.get_with_proof("other"), None);
}

#[test]
fn last_write_wins_within_batch() {
    let mut store = MemoryBackingStore::new();
    store.put_all(vec![
        ("k".to_string(), "v1".to_string()),
        ("k".to_string(), "v2".to_string()),
    ]);
    assert_eq!(store.get("k"), Some("v2".to_string()));
}

#[test]
fn later_batch_overwrites_earlier() {
    let mut store = MemoryBackingStore::new();
    store.put_all(vec![("k".to_string(), "v1".to_string())]);
    store.put_all(vec![("k".to_string(), "v2".to_string())]);
    assert_eq!(store.get("k"), Some("v2".to_string()));
}

#[test]
fn distinct_keys_stay_distinct() {
    let mut store = MemoryBackingStore::new();
    store.put_all(vec![
        ("a".to_string(), "1".to_string()),
        ("b".to_string(), "2".to_string()),
        ("c".to_string(), "3".to_string()),
    ]);
    assert_eq!(store.get("a"), Some("1".to_string()));
    assert_eq!(store.get("b"), Some("2".to_string()));
    assert_eq!(store.get("c"), Some("3".to_string()));
    assert_eq!(store.get("d"), None);
}

#[test]
fn empty_batch_changes_nothing() {
    let mut store = MemoryBackingStore::new();
    store.put_all(vec![("k".to_string(), "v".to_string())]);
    store.put_all(vec![]);
    assert_eq!(store.get("k"), Some("v".to_string()));
}

#[test]
fn empty_value_round_trips() {
    let mut store = MemoryBackingStore::new();
    store.put_all(vec![("k".to_string(), String::new())]);
    assert_eq!(store.get("k"), Some(String::new()));
}
