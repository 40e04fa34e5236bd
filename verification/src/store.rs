//! The blob record store: metadata of stored artifacts, keyed by a stable
//! identifier and carrying a non-null content hash. New rows treat the
//! content hash as the dedup key: the store enforces uniqueness of both the
//! identifier and the content hash. This is the persistence contract the
//! cache index builds on — find and insert operations with single-row
//! atomicity and the uniqueness constraint — held in memory.

use vstd::prelude::*;

use crate::digest::Digest;
use crate::errors::StoreError;

verus! {

/// Metadata of one stored artifact. The identifier is stable once assigned
/// and never reused; the content hash is computed once, at creation, and is
/// immutable thereafter.
pub struct BlobRecord {
    pub id: u64,
    pub content_hash: Digest,
}

impl BlobRecord {
    pub open spec fn wf(&self) -> bool {
        self.content_hash.wf()
    }

    /// Verified deep copy of a record.
    pub fn duplicate(&self) -> (r: BlobRecord)
        ensures
            r.id == self.id,
            r.content_hash@ == self.content_hash@,
    {
        BlobRecord { id: self.id, content_hash: self.content_hash.duplicate() }
    }
}

/// The blob table after migration: every record carries a content hash, and
/// both identifiers and content hashes are unique across records.
pub struct BlobStore {
    entries: Vec<BlobRecord>,
}

impl BlobStore {
    /// The records currently persisted, in insertion order.
    pub closed spec fn records(&self) -> Seq<BlobRecord> {
        self.entries@
    }

    /// Some record carries this identifier.
    pub open spec fn contains_id(&self, id: u64) -> bool {
        exists|i: int| 0 <= i < self.records().len() && self.records()[i].id == id
    }

    /// Some record carries this content hash.
    pub open spec fn contains_hash(&self, h: Seq<u8>) -> bool {
        exists|i: int| 0 <= i < self.records().len() && self.records()[i].content_hash@ == h
    }

    /// Store invariant: well-formed records, unique identifiers, and at most
    /// one record per distinct content hash (the dedup constraint).
    pub open spec fn wf(&self) -> bool {
        &&& forall|i: int| 0 <= i < self.records().len() ==> self.records()[i].wf()
        &&& forall|i: int, j: int|
            0 <= i < j < self.records().len() ==> self.records()[i].id != self.records()[j].id
        &&& forall|i: int, j: int|
            0 <= i < j < self.records().len()
                ==> self.records()[i].content_hash@ != self.records()[j].content_hash@
    }

    pub fn new() -> (s: BlobStore)
        ensures
            s.wf(),
            s.records().len() == 0,
    {
        BlobStore { entries: Vec::new() }
    }

    pub fn count(&self) -> (n: usize)
        ensures
            n == self.records().len(),
    {
        self.entries.len()
    }

    /// Borrow the record at a position (positions are stable: records are
    /// only ever appended).
    pub fn get(&self, i: usize) -> (r: &BlobRecord)
        requires
            i < self.records().len(),
        ensures
            *r == self.records()[i as int],
    {
        &self.entries[i]
    }

    /// Position of the record with this identifier, if any.
    pub fn find_by_id(&self, id: u64) -> (r: Option<usize>)
        ensures
            match r {
                Some(i) => i < self.records().len() && self.records()[i as int].id == id,
                None => !self.contains_id(id),
            },
    {
        let n = self.entries.len();
        let mut i: usize = 0;
        while i < n
            invariant
                i <= n,
                n == self.records().len(),
                forall|j: int| 0 <= j < i ==> self.records()[j].id != id,
            decreases n - i,
        {
            if self.entries[i].id == id {
                return Some(i);
            }
            i += 1;
        }
        None
    }

    /// Position of the record with this content hash, if any.
    pub fn find_by_content_hash(&self, d: &Digest) -> (r: Option<usize>)
        ensures
            match r {
                Some(i) => i < self.records().len() && self.records()[i as int].content_hash@
                    == d@,
                None => !self.contains_hash(d@),
            },
    {
        let n = self.entries.len();
        let mut i: usize = 0;
        while i < n
            invariant
                i <= n,
                n == self.records().len(),
                forall|j: int| 0 <= j < i ==> self.records()[j].content_hash@ != d@,
            decreases n - i,
        {
            if self.entries[i].content_hash.eq_digest(d) {
                return Some(i);
            }
            i += 1;
        }
        None
    }

    /// Insert a record. Fails with `DuplicateKey`, leaving the store
    /// untouched, exactly when the identifier or the content hash is already
    /// present (the store's single-row uniqueness enforcement that the
    /// index's dedup protocol builds on).
    pub fn insert(&mut self, rec: &BlobRecord) -> (r: Result<(), StoreError>)
        requires
            old(self).wf(),
            rec.wf(),
        ensures
            final(self).wf(),
            match r {
                Ok(()) => {
                    &&& !old(self).contains_id(rec.id)
                    &&& !old(self).contains_hash(rec.content_hash@)
                    &&& final(self).records().len() == old(self).records().len() + 1
                    &&& final(self).records()[old(self).records().len() as int].id == rec.id
                    &&& final(self).records()[old(self).records().len() as int].content_hash@
                        == rec.content_hash@
                    &&& forall|i: int|
                        0 <= i < old(self).records().len()
                            ==> final(self).records()[i] == old(self).records()[i]
                },
                Err(e) => {
                    &&& e == StoreError::DuplicateKey
                    &&& old(self).contains_id(rec.id) || old(self).contains_hash(rec.content_hash@)
                    &&& final(self).records() == old(self).records()
                },
            },
    {
        if self.find_by_id(rec.id).is_some() {
            return Err(StoreError::DuplicateKey);
        }
        if self.find_by_content_hash(&rec.content_hash).is_some() {
            return Err(StoreError::DuplicateKey);
        }
        self.entries.push(rec.duplicate());
        Ok(())
    }
}

} // verus!
