use rsc_cache::accountant::Accountant;
use rsc_cache::accountant::SavingsAmount;
use rsc_cache::digest::hash_bytes;
use rsc_cache::index::CacheIndex;
use rsc_cache::index::CacheLookupOutcome;

#[test]
fn miss_then_store_then_hit_with_savings() {
    // store content "hello" under one fingerprint: the lookup misses (with
    // positive latency), the miss is recorded, and a record with the hash
    // of "hello" is created; a second lookup hits, and the hit's savings
    // land in the totals
    let fingerprint_a: u64 = 0xA;
    let mut index = CacheIndex::new();
    let mut acct = Accountant::new();

    let outcome = index.lookup(fingerprint_a, 3);
    match &outcome {
        CacheLookupOutcome::Miss { latency_ms } => assert!(*latency_ms > 0),
        CacheLookupOutcome::Hit { .. } => panic!("lookup before store produced a hit"),
    }
    assert!(acct.record(&outcome, None).is_ok());
    assert_eq!(acct.misses, 1);

    let record = index.store(fingerprint_a, b"hello");
    assert!(record.content_hash.eq_digest(&hash_bytes(b"hello")));
    assert_eq!(index.record_count(), 1);

    let outcome = index.lookup(fingerprint_a, 5);
    match &outcome {
        CacheLookupOutcome::Hit { record: found, latency_ms } => {
            assert!(*latency_ms > 0);
            assert_eq!(found.id, record.id);
        },
        CacheLookupOutcome::Miss { .. } => panic!("stored fingerprint missed"),
    }
    // avoided cost: 2.0 s runtime, 1.5 s CPU, 1024 bytes of memory, no I/O
    let s = SavingsAmount {
        runtime_us: 2_000_000,
        cputime_us: 1_500_000,
        memory_bytes: 1024,
        io_read_bytes: 0,
        io_write_bytes: 0,
    };
    assert!(acct.record(&outcome, Some(&s)).is_ok());
    assert_eq!(acct.hits, 1);
    assert_eq!(acct.misses, 1);
    assert_eq!(acct.runtime_savings_us, 2_000_000);
    assert_eq!(acct.cputime_savings_us, 1_500_000);
    assert_eq!(acct.memory_savings_bytes, 1024);
    assert_eq!(acct.io_read_savings_bytes, 0);
    assert_eq!(acct.io_write_savings_bytes, 0);
}
