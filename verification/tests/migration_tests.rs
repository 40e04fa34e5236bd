use rsc_cache::digest::hash_bytes;
use rsc_cache::errors::MigrationError;
use rsc_cache::errors::StoreError;
use rsc_cache::migration::BlobTable;
use rsc_cache::migration::Migration;

fn fixture_table() -> BlobTable {
    // three pre-existing rows, two of them with identical content
    let mut table = BlobTable::new();
    assert!(table.add_row(1, Some(b"shared payload".to_vec())).is_ok());
    assert!(table.add_row(2, Some(b"shared payload".to_vec())).is_ok());
    assert!(table.add_row(3, Some(b"unique payload".to_vec())).is_ok());
    table
}

#[test]
fn migration_round_trip() {
    let mut table = fixture_table();
    let migrator = Migration;

    assert!(migrator.up(&mut table).is_ok());
    assert!(table.is_migrated());
    assert_eq!(table.row_count(), 3);
    for i in 0..3 {
        let row = table.row(i);
        assert_eq!(row.id, (i as u64) + 1);
        let hash = row.content_hash.as_ref().expect("backfilled hash");
        let content = row.content.as_ref().expect("content kept");
        assert!(hash.eq_digest(&hash_bytes(content)));
    }
    // the two identical-content rows carry equal hashes
    let h1 = table.row(0).content_hash.as_ref().unwrap().to_vec();
    let h2 = table.row(1).content_hash.as_ref().unwrap().to_vec();
    let h3 = table.row(2).content_hash.as_ref().unwrap().to_vec();
    assert_eq!(h1, h2);
    assert_ne!(h1, h3);

    assert!(migrator.down(&mut table).is_ok());
    assert!(!table.is_migrated());
    assert_eq!(table.row_count(), 3);
    for i in 0..3 {
        let row = table.row(i);
        assert_eq!(row.id, (i as u64) + 1);
        assert!(row.content_hash.is_none());
    }
    assert_eq!(table.row(0).content.as_ref().unwrap(), b"shared payload");
    assert_eq!(table.row(1).content.as_ref().unwrap(), b"shared payload");
    assert_eq!(table.row(2).content.as_ref().unwrap(), b"unique payload");
}

#[test]
fn up_twice_is_clean_no_op_failure() {
    let mut table = fixture_table();
    let migrator = Migration;
    assert!(migrator.up(&mut table).is_ok());
    assert_eq!(migrator.up(&mut table), Err(MigrationError::AlreadyApplied));
    assert!(table.is_migrated());
    assert_eq!(table.row_count(), 3);
    assert!(table.row(0).content_hash.is_some());
}

#[test]
fn down_without_up_is_clean_no_op_failure() {
    let mut table = fixture_table();
    let migrator = Migration;
    assert_eq!(migrator.down(&mut table), Err(MigrationError::NotApplied));
    assert!(!table.is_migrated());
    assert_eq!(table.row_count(), 3);
}

#[test]
fn inaccessible_content_aborts_backfill() {
    let mut table = BlobTable::new();
    assert!(table.add_row(1, Some(b"reachable".to_vec())).is_ok());
    assert!(table.add_row(2, None).is_ok());
    let migrator = Migration;
    assert_eq!(migrator.up(&mut table), Err(MigrationError::BackfillIncomplete));
    // pre-migration state, never partially constrained
    assert!(!table.is_migrated());
    assert_eq!(table.row_count(), 2);
    assert!(table.row(0).content_hash.is_none());
    assert!(table.row(1).content_hash.is_none());
}

#[test]
fn update_content_hash_missing_row_is_not_found() {
    let mut table = fixture_table();
    let d = hash_bytes(b"anything");
    assert_eq!(table.update_content_hash(99, &d), Err(StoreError::NotFound));
    assert!(table.row(0).content_hash.is_none());
}

#[test]
fn update_content_hash_sets_one_row() {
    let mut table = fixture_table();
    let d = hash_bytes(b"shared payload");
    assert!(table.update_content_hash(2, &d).is_ok());
    assert!(table.row(0).content_hash.is_none());
    assert!(table.row(1).content_hash.as_ref().unwrap().eq_digest(&d));
    assert!(table.row(2).content_hash.is_none());
}

#[test]
fn add_row_duplicate_id_rejected() {
    let mut table = BlobTable::new();
    assert!(table.add_row(1, Some(b"a".to_vec())).is_ok());
    assert_eq!(table.add_row(1, Some(b"b".to_vec())), Err(StoreError::DuplicateKey));
    assert_eq!(table.row_count(), 1);
}
