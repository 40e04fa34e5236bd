//! The cache index: resolves a job fingerprint to a blob record and
//! deduplicates identical content by its digest. Content-addressing is kept
//! idempotent under concurrent creation by the store's uniqueness constraint
//! on the content hash plus a single read-after-conflict fallback; the
//! common, no-conflict path takes no lock.

use vstd::prelude::*;
use vstd::pervasive::unreached;

use crate::digest::digest_of;
use crate::digest::hash_bytes;
use crate::store::BlobRecord;
use crate::store::BlobStore;

verus! {

/// The association sequence holds this fingerprint-to-identifier pair.
pub open spec fn seq_maps(s: Seq<(u64, u64)>, fp: u64, id: u64) -> bool {
    exists|i: int| 0 <= i < s.len() && s[i].0 == fp && s[i].1 == id
}

/// The association sequence holds this fingerprint.
pub open spec fn seq_has_fp(s: Seq<(u64, u64)>, fp: u64) -> bool {
    exists|i: int| 0 <= i < s.len() && s[i].0 == fp
}

/// Some record in the sequence carries this identifier.
pub open spec fn seq_has_id(rs: Seq<BlobRecord>, id: u64) -> bool {
    exists|j: int| 0 <= j < rs.len() && rs[j].id == id
}

/// A sequence extended at the end keeps every identifier of its prefix.
proof fn lemma_extension_keeps_ids(rs: Seq<BlobRecord>, rs2: Seq<BlobRecord>)
    requires
        rs2.len() >= rs.len(),
        forall|i: int| 0 <= i < rs.len() ==> rs2[i] == rs[i],
    ensures
        forall|id: u64| seq_has_id(rs, id) ==> #[trigger] seq_has_id(rs2, id),
{
    assert forall|id: u64| seq_has_id(rs, id) implies #[trigger] seq_has_id(rs2, id) by {
        let j = choose|j: int| 0 <= j < rs.len() && rs[j].id == id;
        assert(rs2[j].id == id);
    }
}

/// Result of one lookup; produced once per lookup and consumed exactly once
/// by the outcome accountant. Latency is wall-clock time from lookup start
/// to outcome determination, measured by the caller that drives the lookup.
pub enum CacheLookupOutcome {
    Hit { record: BlobRecord, latency_ms: u64 },
    Miss { latency_ms: u64 },
}

impl CacheLookupOutcome {
    pub open spec fn is_hit(&self) -> bool {
        self is Hit
    }

    pub open spec fn latency(&self) -> u64 {
        match self {
            CacheLookupOutcome::Hit { latency_ms, .. } => *latency_ms,
            CacheLookupOutcome::Miss { latency_ms } => *latency_ms,
        }
    }
}

/// The cache index: a fingerprint-to-record-id association over a blob
/// record store whose content hashes are unique.
pub struct CacheIndex {
    store: BlobStore,
    assoc: Vec<(u64, u64)>,
    id_counter: u64,
}

impl CacheIndex {
    /// The underlying blob record store.
    pub closed spec fn blob_store(&self) -> BlobStore {
        self.store
    }

    /// The persisted records, in insertion order.
    pub open spec fn records(&self) -> Seq<BlobRecord> {
        self.blob_store().records()
    }

    /// The fingerprint-to-id associations, in association order.
    pub closed spec fn assignments(&self) -> Seq<(u64, u64)> {
        self.assoc@
    }

    /// The next identifier to assign; identifiers are never reused.
    pub closed spec fn fresh_id(&self) -> u64 {
        self.id_counter
    }

    /// The fingerprint is associated with the record identifier.
    pub open spec fn maps_fp(&self, fp: u64, id: u64) -> bool {
        seq_maps(self.assignments(), fp, id)
    }

    /// Some record identifier is associated with the fingerprint.
    pub open spec fn has_fp(&self, fp: u64) -> bool {
        seq_has_fp(self.assignments(), fp)
    }

    /// Some persisted record carries this content hash.
    pub open spec fn contains_hash(&self, h: Seq<u8>) -> bool {
        self.blob_store().contains_hash(h)
    }

    /// The record with this identifier carries this content hash.
    pub open spec fn id_has_hash(&self, id: u64, h: Seq<u8>) -> bool {
        exists|j: int|
            0 <= j < self.records().len() && self.records()[j].id == id
                && self.records()[j].content_hash@ == h
    }

    /// Index invariant: the store is well formed (unique identifiers, at
    /// most one record per content hash), each fingerprint is associated at
    /// most once, every associated identifier denotes a persisted record,
    /// and every persisted identifier is below the allocation counter.
    pub open spec fn wf(&self) -> bool {
        &&& self.blob_store().wf()
        &&& forall|i: int, j: int|
            0 <= i < j < self.assignments().len()
                ==> self.assignments()[i].0 != self.assignments()[j].0
        &&& forall|i: int|
            0 <= i < self.assignments().len() ==> seq_has_id(
                self.records(),
                (#[trigger] self.assignments()[i]).1,
            )
        &&& forall|j: int| 0 <= j < self.records().len() ==> self.records()[j].id < self.fresh_id()
    }

    pub fn new() -> (c: CacheIndex)
        ensures
            c.wf(),
            c.records().len() == 0,
            c.assignments().len() == 0,
            c.fresh_id() == 0,
    {
        CacheIndex { store: BlobStore::new(), assoc: Vec::new(), id_counter: 0 }
    }

    /// How many records are persisted (exactly one per distinct stored
    /// content, by the dedup invariant).
    pub fn record_count(&self) -> (n: usize)
        ensures
            n == self.records().len(),
    {
        self.store.count()
    }

    /// Whether the fingerprint is already associated with a record.
    pub fn has_fingerprint(&self, fp: u64) -> (b: bool)
        ensures
            b == self.has_fp(fp),
    {
        self.find_assignment(fp).is_some()
    }

    /// The next identifier that a freshly stored record would receive.
    pub fn next_id(&self) -> (n: u64)
        ensures
            n == self.fresh_id(),
    {
        self.id_counter
    }

    /// Position of the association holding this fingerprint, if any.
    fn find_assignment(&self, fp: u64) -> (r: Option<usize>)
        ensures
            match r {
                Some(i) => i < self.assignments().len() && self.assignments()[i as int].0 == fp,
                None => !self.has_fp(fp),
            },
    {
        let n = self.assoc.len();
        let mut i: usize = 0;
        while i < n
            invariant
                i <= n,
                n == self.assignments().len(),
                forall|j: int| 0 <= j < i ==> self.assignments()[j].0 != fp,
            decreases n - i,
        {
            if self.assoc[i].0 == fp {
                return Some(i);
            }
            i += 1;
        }
        None
    }

    /// Associate a fingerprint (not yet associated) with the identifier of a
    /// persisted record.
    fn associate(&mut self, fp: u64, id: u64)
        requires
            old(self).wf(),
            !old(self).has_fp(fp),
            seq_has_id(old(self).records(), id),
        ensures
            final(self).wf(),
            final(self).assignments() == old(self).assignments().push((fp, id)),
            final(self).records() == old(self).records(),
            final(self).fresh_id() == old(self).fresh_id(),
    {
        self.assoc.push((fp, id));
        proof {
            let s = old(self).assignments();
            let t = self.assignments();
            assert forall|i: int, j: int| 0 <= i < j < t.len() implies t[i].0 != t[j].0 by {
                if j == s.len() {
                    assert(t[j].0 == fp);
                    assert(t[i] == s[i]);
                    if s[i].0 == fp {
                        assert(old(self).has_fp(fp));
                    }
                } else {
                    assert(t[i] == s[i] && t[j] == s[j]);
                }
            }
            assert(self.records() == old(self).records());
            assert forall|i: int| 0 <= i < t.len() implies seq_has_id(
                self.records(),
                (#[trigger] t[i]).1,
            ) by {
                if i < s.len() {
                    assert(t[i] == s[i]);
                    assert(seq_has_id(old(self).records(), s[i].1));
                } else {
                    assert(t[i].1 == id);
                }
            }
        }
    }

    /// Resolve a fingerprint. A hit returns the associated record (with its
    /// latency); a miss carries the latency alone. `latency_ms` is the
    /// wall-clock time the caller measured from lookup start to outcome
    /// determination, attached regardless of hit or miss.
    pub fn lookup(&self, fp: u64, latency_ms: u64) -> (out: CacheLookupOutcome)
        requires
            self.wf(),
        ensures
            out.latency() == latency_ms,
            out.is_hit() <==> self.has_fp(fp),
            out matches CacheLookupOutcome::Hit { record, .. } ==> self.maps_fp(fp, record.id)
                && self.id_has_hash(record.id, record.content_hash@),
    {
        match self.find_assignment(fp) {
            Some(i) => {
                let id = self.assoc[i].1;
                proof {
                    assert(seq_has_id(self.records(), id));
                    let k = choose|j: int|
                        0 <= j < self.records().len() && self.records()[j].id == id;
                    assert(self.blob_store().records()[k].id == id);
                }
                match self.store.find_by_id(id) {
                    Some(j) => {
                        let record = self.store.get(j).duplicate();
                        proof {
                            assert(self.assignments()[i as int].0 == fp && self.assignments()[
                                i as int].1 == record.id);
                            assert(self.records()[j as int].id == record.id && self.records()[
                                j as int].content_hash@ == record.content_hash@);
                        }
                        CacheLookupOutcome::Hit { record, latency_ms }
                    },
                    None => unreached(),
                }
            },
            None => CacheLookupOutcome::Miss { latency_ms },
        }
    }

    /// Store resolved miss content under a fingerprint that is not yet
    /// associated. The content digest is the dedup key: if a record with
    /// this digest is already persisted (content produced earlier under a
    /// different fingerprint, or by a concurrent winner), no new record is
    /// created and the fingerprint is associated with the existing record.
    /// Otherwise exactly one new record is persisted. The protocol is
    /// attempt-insert, then on a duplicate-key conflict a single re-read by
    /// hash that adopts the winner's record.
    pub fn store(&mut self, fp: u64, bytes: &[u8]) -> (r: BlobRecord)
        requires
            old(self).wf(),
            !old(self).has_fp(fp),
            old(self).fresh_id() < u64::MAX,
        ensures
            final(self).wf(),
            r.content_hash@ == digest_of(bytes@),
            final(self).maps_fp(fp, r.id),
            final(self).id_has_hash(r.id, digest_of(bytes@)),
            final(self).contains_hash(digest_of(bytes@)),
            // dedup: content already stored leaves the records untouched
            old(self).contains_hash(digest_of(bytes@)) ==> final(self).records() == old(
                self,
            ).records(),
            // fresh content appends exactly one record, carrying the digest
            !old(self).contains_hash(digest_of(bytes@)) ==> {
                &&& final(self).records().len() == old(self).records().len() + 1
                &&& final(self).records()[old(self).records().len() as int].content_hash@
                    == digest_of(bytes@)
                &&& forall|i: int|
                    0 <= i < old(self).records().len()
                        ==> final(self).records()[i] == old(self).records()[i]
            },
            // the fingerprint is now associated; associations of other
            // fingerprints are untouched
            final(self).has_fp(fp),
            forall|f2: u64, id2: u64|
                f2 != fp ==> (final(self).maps_fp(f2, id2) <==> old(self).maps_fp(f2, id2)),
            forall|f2: u64| f2 != fp ==> (final(self).has_fp(f2) <==> old(self).has_fp(f2)),
            // one identifier is allocated for fresh content, none for dedup
            final(self).fresh_id() == (if old(self).contains_hash(digest_of(bytes@)) {
                old(self).fresh_id()
            } else {
                (old(self).fresh_id() + 1) as u64
            }),
    {
        let d = hash_bytes(bytes);
        let candidate = BlobRecord { id: self.id_counter, content_hash: d };
        match self.store.insert(&candidate) {
            Ok(()) => {
                self.id_counter = self.id_counter + 1;
                proof {
                    let n = old(self).records().len() as int;
                    assert(self.records()[n].id == candidate.id && self.records()[n].content_hash@
                        == digest_of(bytes@));
                    assert(seq_has_id(self.records(), candidate.id));
                    lemma_extension_keeps_ids(old(self).records(), self.records());
                    assert forall|i: int| 0 <= i < self.assignments().len() implies seq_has_id(
                        self.records(),
                        (#[trigger] self.assignments()[i]).1,
                    ) by {
                        assert(self.assignments()[i] == old(self).assignments()[i]);
                        assert(seq_has_id(old(self).records(), old(self).assignments()[i].1));
                    }
                }
                self.associate(fp, candidate.id);
                proof {
                    let m = self.assignments().len() - 1;
                    assert(self.assignments()[m].0 == fp && self.assignments()[m].1
                        == candidate.id);
                    let n = old(self).records().len() as int;
                    assert(self.records()[n].id == candidate.id && self.records()[n].content_hash@
                        == digest_of(bytes@));
                    lemma_push_frames_other_fps(old(self).assignments(), fp, candidate.id);
                }
                candidate
            },
            Err(_) => {
                // the uniqueness constraint rejected the insert; the
                // identifier was fresh, so the conflict is on the content
                // hash: adopt the winner found by a single re-read
                match self.store.find_by_content_hash(&candidate.content_hash) {
                    Some(j) => {
                        let winner = self.store.get(j).duplicate();
                        proof {
                            assert(self.records()[j as int].id == winner.id);
                            assert(seq_has_id(self.records(), winner.id));
                        }
                        self.associate(fp, winner.id);
                        proof {
                            let m = self.assignments().len() - 1;
                            assert(self.assignments()[m].0 == fp && self.assignments()[m].1
                                == winner.id);
                            assert(self.records()[j as int].id == winner.id && self.records()[
                                j as int].content_hash@ == digest_of(bytes@));
                            lemma_push_frames_other_fps(old(self).assignments(), fp, winner.id);
                        }
                        winner
                    },
                    None => unreached(),
                }
            },
        }
    }
}

/// Appending an association for one fingerprint neither adds nor removes
/// associations of any other fingerprint.
proof fn lemma_push_frames_other_fps(s: Seq<(u64, u64)>, fp: u64, id: u64)
    ensures
        forall|f2: u64, id2: u64|
            f2 != fp ==> (#[trigger] seq_maps(s.push((fp, id)), f2, id2) <==> seq_maps(
                s,
                f2,
                id2,
            )),
        forall|f2: u64|
            f2 != fp ==> (#[trigger] seq_has_fp(s.push((fp, id)), f2) <==> seq_has_fp(s, f2)),
{
    assert forall|f2: u64| f2 != fp implies (#[trigger] seq_has_fp(s.push((fp, id)), f2)
        <==> seq_has_fp(s, f2)) by {
        if seq_has_fp(s.push((fp, id)), f2) {
            let i = choose|i: int| 0 <= i < s.push((fp, id)).len() && s.push((fp, id))[i].0 == f2;
            if i < s.len() {
                assert(s[i].0 == f2);
            } else {
                assert(s.push((fp, id))[i].0 == fp);
            }
        }
        if seq_has_fp(s, f2) {
            let i = choose|i: int| 0 <= i < s.len() && s[i].0 == f2;
            assert(s.push((fp, id))[i].0 == f2);
        }
    }
    assert forall|f2: u64, id2: u64| f2 != fp implies (#[trigger] seq_maps(
        s.push((fp, id)),
        f2,
        id2,
    ) <==> seq_maps(s, f2, id2)) by {
        if seq_maps(s.push((fp, id)), f2, id2) {
            let i = choose|i: int|
                0 <= i < s.push((fp, id)).len() && s.push((fp, id))[i].0 == f2 && s.push(
                    (fp, id),
                )[i].1 == id2;
            if i < s.len() {
                assert(s[i].0 == f2 && s[i].1 == id2);
            } else {
                assert(s.push((fp, id))[i].0 == fp);
            }
        }
        if seq_maps(s, f2, id2) {
            let i = choose|i: int| 0 <= i < s.len() && s[i].0 == f2 && s[i].1 == id2;
            assert(s.push((fp, id))[i].0 == f2 && s.push((fp, id))[i].1 == id2);
        }
    }
}

/// Law (dedup): in a well-formed index there is at most one persisted record
/// per distinct content hash — however many times, and under however many
/// fingerprints, content with that hash was stored.
pub proof fn lemma_at_most_one_record_per_hash(c: &CacheIndex, i: int, j: int)
    requires
        c.wf(),
        0 <= i < c.records().len(),
        0 <= j < c.records().len(),
        c.records()[i].content_hash@ == c.records()[j].content_hash@,
    ensures
        i == j,
{
}

/// Law (content addressing): two fingerprints whose associated records carry
/// the same content hash are associated with the same record identifier —
/// all fingerprints that stored identical content resolve to one record.
pub proof fn lemma_same_content_same_record(
    c: &CacheIndex,
    fp1: u64,
    fp2: u64,
    id1: u64,
    id2: u64,
    h: Seq<u8>,
)
    requires
        c.wf(),
        c.maps_fp(fp1, id1),
        c.maps_fp(fp2, id2),
        c.id_has_hash(id1, h),
        c.id_has_hash(id2, h),
    ensures
        id1 == id2,
{
    let j1 = choose|j: int|
        0 <= j < c.records().len() && c.records()[j].id == id1 && c.records()[j].content_hash@
            == h;
    let j2 = choose|j: int|
        0 <= j < c.records().len() && c.records()[j].id == id2 && c.records()[j].content_hash@
            == h;
    lemma_at_most_one_record_per_hash(c, j1, j2);
}

} // verus!
