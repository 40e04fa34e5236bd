use rsc_cache::digest::hash_bytes;
use rsc_cache::errors::StoreError;
use rsc_cache::index::CacheIndex;
use rsc_cache::index::CacheLookupOutcome;
use rsc_cache::store::BlobRecord;
use rsc_cache::store::BlobStore;

#[test]
fn lookup_on_empty_index_is_miss() {
    let index = CacheIndex::new();
    match index.lookup(42, 7) {
        CacheLookupOutcome::Miss { latency_ms } => assert_eq!(latency_ms, 7),
        CacheLookupOutcome::Hit { .. } => panic!("empty index produced a hit"),
    }
}

#[test]
fn store_dedups_same_content_across_fingerprints() {
    // one persisted record per distinct content hash, however many
    // fingerprints stored the same bytes
    let mut index = CacheIndex::new();
    let first = index.store(0, b"identical artifact");
    for fp in 1u64..5 {
        let rec = index.store(fp, b"identical artifact");
        assert_eq!(rec.id, first.id);
        assert!(rec.content_hash.eq_digest(&first.content_hash));
    }
    assert_eq!(index.record_count(), 1);
    for fp in 0u64..5 {
        match index.lookup(fp, 1) {
            CacheLookupOutcome::Hit { record, .. } => assert_eq!(record.id, first.id),
            CacheLookupOutcome::Miss { .. } => panic!("stored fingerprint missed"),
        }
    }
}

#[test]
fn interleaved_stores_one_record_per_content() {
    // many distinct fingerprints, two distinct contents, in interleaved
    // order: exactly one persisted record per content, and every
    // fingerprint resolves to its content's record
    let mut index = CacheIndex::new();
    let a0 = index.store(10, b"content alpha");
    let b0 = index.store(20, b"content beta");
    let a1 = index.store(11, b"content alpha");
    let b1 = index.store(21, b"content beta");
    let a2 = index.store(12, b"content alpha");
    let b2 = index.store(22, b"content beta");
    assert_eq!(index.record_count(), 2);
    assert_eq!(a1.id, a0.id);
    assert_eq!(a2.id, a0.id);
    assert_eq!(b1.id, b0.id);
    assert_eq!(b2.id, b0.id);
    assert_ne!(a0.id, b0.id);
    for fp in [10u64, 11, 12] {
        match index.lookup(fp, 1) {
            CacheLookupOutcome::Hit { record, .. } => assert_eq!(record.id, a0.id),
            CacheLookupOutcome::Miss { .. } => panic!("stored fingerprint missed"),
        }
    }
    for fp in [20u64, 21, 22] {
        match index.lookup(fp, 1) {
            CacheLookupOutcome::Hit { record, .. } => assert_eq!(record.id, b0.id),
            CacheLookupOutcome::Miss { .. } => panic!("stored fingerprint missed"),
        }
    }
}

#[test]
fn stored_record_carries_content_digest() {
    let mut index = CacheIndex::new();
    let rec = index.store(3, b"hello");
    let expected = hash_bytes(b"hello");
    assert!(rec.content_hash.eq_digest(&expected));
    assert_eq!(rec.content_hash.to_vec(), expected.to_vec());
}

#[test]
fn distinct_content_gets_distinct_records() {
    let mut index = CacheIndex::new();
    let r1 = index.store(1, b"one");
    let r2 = index.store(2, b"two");
    assert_ne!(r1.id, r2.id);
    assert!(!r1.content_hash.eq_digest(&r2.content_hash));
    assert_eq!(index.record_count(), 2);
}

#[test]
fn insert_existing_id_is_duplicate_key() {
    let mut store = BlobStore::new();
    let rec = BlobRecord { id: 7, content_hash: hash_bytes(b"x") };
    assert!(store.insert(&rec).is_ok());
    let clash = BlobRecord { id: 7, content_hash: hash_bytes(b"y") };
    assert_eq!(store.insert(&clash), Err(StoreError::DuplicateKey));
    assert_eq!(store.count(), 1);
}

#[test]
fn insert_existing_hash_is_duplicate_key() {
    let mut store = BlobStore::new();
    let rec = BlobRecord { id: 1, content_hash: hash_bytes(b"same bytes") };
    assert!(store.insert(&rec).is_ok());
    let clash = BlobRecord { id: 2, content_hash: hash_bytes(b"same bytes") };
    assert_eq!(store.insert(&clash), Err(StoreError::DuplicateKey));
    assert_eq!(store.count(), 1);
}

#[test]
fn find_by_content_hash_resolves_winner() {
    let mut store = BlobStore::new();
    let rec = BlobRecord { id: 5, content_hash: hash_bytes(b"winner") };
    assert!(store.insert(&rec).is_ok());
    let idx = store.find_by_content_hash(&hash_bytes(b"winner")).expect("hash present");
    assert_eq!(store.get(idx).id, 5);
    assert!(store.find_by_content_hash(&hash_bytes(b"absent")).is_none());
}
