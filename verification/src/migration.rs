//! The schema migration: a one-shot, reversible change that adds the
//! non-null content hash column to the blob table. `up` backfills every
//! pre-existing row by re-hashing its stored content before the non-null
//! constraint is enforced, and fails — leaving the schema in its
//! pre-migration state — if any row's content is inaccessible. `down` drops
//! the column, discarding the hashes (explicit, irreversible reversal).

use vstd::prelude::*;

use crate::digest::Digest;
use crate::digest::digest_of;
use crate::digest::hash_bytes;
use crate::errors::MigrationError;
use crate::errors::StoreError;

verus! {

/// One row of the blob table as the migration sees it: the stable
/// identifier, the artifact's stored content (`None` when inaccessible),
/// and the content hash column's value once the column exists.
pub struct TableRow {
    pub id: u64,
    pub content: Option<Vec<u8>>,
    pub content_hash: Option<Digest>,
}

impl TableRow {
    /// The stored content, as a byte sequence.
    pub open spec fn content_view(&self) -> Option<Seq<u8>> {
        match self.content {
            Some(c) => Some(c@),
            None => None,
        }
    }

    /// The content hash column's value, as a byte sequence.
    pub open spec fn hash_view(&self) -> Option<Seq<u8>> {
        match self.content_hash {
            Some(d) => Some(d@),
            None => None,
        }
    }
}

/// Relation between a row before `up` and the same row after: identifier
/// and content are untouched; a hash already present is kept, a missing one
/// is backfilled with the digest of the stored content.
pub open spec fn row_migrated(pre: TableRow, post: TableRow) -> bool {
    &&& post.id == pre.id
    &&& post.content_view() == pre.content_view()
    &&& post.hash_view() == (match pre.hash_view() {
        Some(h) => Some(h),
        None => Some(digest_of(pre.content_view()->Some_0)),
    })
}

/// Relation between a row before `down` and the same row after: identifier
/// and content are untouched; the hash column's value is discarded.
pub open spec fn row_dropped(pre: TableRow, post: TableRow) -> bool {
    &&& post.id == pre.id
    &&& post.content_view() == pre.content_view()
    &&& post.hash_view() is None
}

/// The blob table as the migration sees it: its rows, and whether the
/// content hash column exists with its non-null constraint enforced.
pub struct BlobTable {
    rows: Vec<TableRow>,
    has_hash_column: bool,
}

impl BlobTable {
    /// The rows, in insertion order.
    pub closed spec fn rows(&self) -> Seq<TableRow> {
        self.rows@
    }

    /// The content hash column exists and its non-null constraint is
    /// enforced.
    pub closed spec fn migrated(&self) -> bool {
        self.has_hash_column
    }

    /// Table invariant: identifiers are unique (the primary key), and once
    /// the non-null constraint is enforced no row's hash is null.
    pub open spec fn wf(&self) -> bool {
        &&& forall|i: int, j: int|
            0 <= i < j < self.rows().len() ==> self.rows()[i].id != self.rows()[j].id
        &&& self.migrated() ==> forall|i: int|
            0 <= i < self.rows().len() ==> (#[trigger] self.rows()[i]).content_hash is Some
    }

    /// A fresh, pre-migration table: no rows, no content hash column.
    pub fn new() -> (t: BlobTable)
        ensures
            t.wf(),
            t.rows().len() == 0,
            !t.migrated(),
    {
        BlobTable { rows: Vec::new(), has_hash_column: false }
    }

    pub fn row_count(&self) -> (n: usize)
        ensures
            n == self.rows().len(),
    {
        self.rows.len()
    }

    pub fn row(&self, i: usize) -> (r: &TableRow)
        requires
            i < self.rows().len(),
        ensures
            *r == self.rows()[i as int],
    {
        &self.rows[i]
    }

    pub fn is_migrated(&self) -> (b: bool)
        ensures
            b == self.migrated(),
    {
        self.has_hash_column
    }

    /// Add a pre-existing row (before the migration runs, so without a
    /// hash). Fails with `DuplicateKey`, leaving the table untouched, when
    /// the identifier is already taken.
    pub fn add_row(&mut self, id: u64, content: Option<Vec<u8>>) -> (r: Result<(), StoreError>)
        requires
            old(self).wf(),
            !old(self).migrated(),
        ensures
            final(self).wf(),
            !final(self).migrated(),
            match r {
                Ok(()) => {
                    &&& forall|i: int|
                        0 <= i < old(self).rows().len() ==> (#[trigger] old(self).rows()[i]).id
                            != id
                    &&& final(self).rows().len() == old(self).rows().len() + 1
                    &&& final(self).rows()[old(self).rows().len() as int].id == id
                    &&& final(self).rows()[old(self).rows().len() as int].content_view() == (
                    match content {
                        Some(c) => Some(c@),
                        None => None,
                    })
                    &&& final(self).rows()[old(self).rows().len() as int].hash_view() is None
                    &&& forall|i: int|
                        0 <= i < old(self).rows().len() ==> final(self).rows()[i] == old(
                            self,
                        ).rows()[i]
                },
                Err(e) => {
                    &&& e == StoreError::DuplicateKey
                    &&& exists|i: int|
                        0 <= i < old(self).rows().len() && (#[trigger] old(self).rows()[i]).id
                            == id
                    &&& final(self).rows() == old(self).rows()
                },
            },
    {
        let n = self.rows.len();
        let mut i: usize = 0;
        while i < n
            invariant
                i <= n,
                n == self.rows().len(),
                *self == *old(self),
                old(self).wf(),
                !old(self).migrated(),
                forall|j: int| 0 <= j < i ==> (#[trigger] self.rows()[j]).id != id,
            decreases n - i,
        {
            if self.rows[i].id == id {
                return Err(StoreError::DuplicateKey);
            }
            i += 1;
        }
        self.rows.push(TableRow { id, content, content_hash: None });
        Ok(())
    }

    /// Set a row's content hash by identifier: the backfill's row-level
    /// write. Fails with `NotFound`, leaving the table untouched, when no
    /// row carries the identifier.
    pub fn update_content_hash(&mut self, id: u64, d: &Digest) -> (r: Result<(), StoreError>)
        requires
            old(self).wf(),
        ensures
            final(self).wf(),
            final(self).migrated() == old(self).migrated(),
            match r {
                Ok(()) => {
                    &&& final(self).rows().len() == old(self).rows().len()
                    &&& exists|i: int|
                        0 <= i < old(self).rows().len() && (#[trigger] old(self).rows()[i]).id
                            == id
                    &&& forall|i: int|
                        0 <= i < old(self).rows().len() ==> {
                            let pre = old(self).rows()[i];
                            let post = #[trigger] final(self).rows()[i];
                            &&& post.id == pre.id
                            &&& post.content_view() == pre.content_view()
                            &&& post.hash_view() == (if pre.id == id {
                                Some(d@)
                            } else {
                                pre.hash_view()
                            })
                        }
                },
                Err(e) => {
                    &&& e == StoreError::NotFound
                    &&& forall|i: int|
                        0 <= i < old(self).rows().len() ==> (#[trigger] old(self).rows()[i]).id
                            != id
                    &&& final(self).rows() == old(self).rows()
                },
            },
    {
        let n = self.rows.len();
        let mut found = false;
        let mut i: usize = 0;
        while i < n
            invariant
                i <= n,
                n == self.rows().len(),
                *self == *old(self),
                found <==> exists|j: int|
                    0 <= j < i && (#[trigger] self.rows()[j]).id == id,
            decreases n - i,
        {
            if self.rows[i].id == id {
                found = true;
            }
            i += 1;
        }
        if !found {
            return Err(StoreError::NotFound);
        }
        let mut new_rows: Vec<TableRow> = Vec::new();
        let mut i: usize = 0;
        while i < n
            invariant
                i <= n,
                n == self.rows().len(),
                *self == *old(self),
                old(self).wf(),
                new_rows@.len() == i,
                forall|j: int|
                    0 <= j < i ==> {
                        let pre = self.rows()[j];
                        let post = #[trigger] new_rows@[j];
                        &&& post.id == pre.id
                        &&& post.content_view() == pre.content_view()
                        &&& post.hash_view() == (if pre.id == id {
                            Some(d@)
                        } else {
                            pre.hash_view()
                        })
                    },
            decreases n - i,
        {
            let row = &self.rows[i];
            let hash = if row.id == id {
                Some(d.duplicate())
            } else {
                duplicate_hash(&row.content_hash)
            };
            new_rows.push(TableRow { id: row.id, content: duplicate_content(&row.content), content_hash: hash });
            i += 1;
        }
        self.rows = new_rows;
        Ok(())
    }
}

/// The schema migrator: applies or reverses the content hash column change
/// on a blob table, as one idempotent-by-intent operation in each direction.
pub struct Migration;

impl Migration {
    /// Add the content hash column and enforce its non-null constraint,
    /// after backfilling every pre-existing row by re-hashing its stored
    /// content. Re-running `up` on a migrated table is a clean no-op
    /// failure; an inaccessible content aborts the backfill and leaves the
    /// table in its pre-migration state — never partially constrained.
    pub fn up(&self, table: &mut BlobTable) -> (r: Result<(), MigrationError>)
        requires
            old(table).wf(),
        ensures
            final(table).wf(),
            match r {
                Ok(()) => {
                    &&& !old(table).migrated()
                    &&& final(table).migrated()
                    &&& final(table).rows().len() == old(table).rows().len()
                    &&& forall|i: int|
                        0 <= i < old(table).rows().len() ==> row_migrated(
                            old(table).rows()[i],
                            #[trigger] final(table).rows()[i],
                        )
                },
                Err(e) => {
                    &&& final(table).rows() == old(table).rows()
                    &&& final(table).migrated() == old(table).migrated()
                    &&& (e == MigrationError::AlreadyApplied <==> old(table).migrated())
                    &&& (e == MigrationError::AlreadyApplied || e
                        == MigrationError::BackfillIncomplete)
                    &&& (e == MigrationError::BackfillIncomplete ==> exists|i: int|
                        0 <= i < old(table).rows().len() && (#[trigger] old(
                            table,
                        ).rows()[i]).content is None && old(table).rows()[i].content_hash is None)
                },
            },
    {
        if table.is_migrated() {
            return Err(MigrationError::AlreadyApplied);
        }
        let n = table.rows.len();
        let mut new_rows: Vec<TableRow> = Vec::new();
        let mut i: usize = 0;
        while i < n
            invariant
                i <= n,
                n == table.rows().len(),
                *table == *old(table),
                old(table).wf(),
                !old(table).migrated(),
                new_rows@.len() == i,
                forall|j: int|
                    0 <= j < i ==> row_migrated(table.rows()[j], #[trigger] new_rows@[j]),
            decreases n - i,
        {
            let row = &table.rows[i];
            match &row.content_hash {
                Some(d) => {
                    new_rows.push(
                        TableRow {
                            id: row.id,
                            content: duplicate_content(&row.content),
                            content_hash: Some(d.duplicate()),
                        },
                    );
                },
                None => {
                    match &row.content {
                        Some(c) => {
                            let d = hash_bytes(c.as_slice());
                            new_rows.push(
                                TableRow {
                                    id: row.id,
                                    content: duplicate_content(&row.content),
                                    content_hash: Some(d),
                                },
                            );
                        },
                        None => {
                            proof {
                                assert((old(table).rows()[i as int]).content is None && old(
                                    table,
                                ).rows()[i as int].content_hash is None);
                            }
                            return Err(MigrationError::BackfillIncomplete);
                        },
                    }
                },
            }
            i += 1;
        }
        table.rows = new_rows;
        table.has_hash_column = true;
        Ok(())
    }

    /// Drop the content hash column, discarding every row's hash while
    /// leaving identifiers and contents untouched. Running `down` on an
    /// unmigrated table is a clean no-op failure.
    pub fn down(&self, table: &mut BlobTable) -> (r: Result<(), MigrationError>)
        requires
            old(table).wf(),
        ensures
            final(table).wf(),
            match r {
                Ok(()) => {
                    &&& old(table).migrated()
                    &&& !final(table).migrated()
                    &&& final(table).rows().len() == old(table).rows().len()
                    &&& forall|i: int|
                        0 <= i < old(table).rows().len() ==> row_dropped(
                            old(table).rows()[i],
                            #[trigger] final(table).rows()[i],
                        )
                },
                Err(e) => {
                    &&& e == MigrationError::NotApplied
                    &&& !old(table).migrated()
                    &&& final(table).rows() == old(table).rows()
                    &&& final(table).migrated() == old(table).migrated()
                },
            },
    {
        if !table.is_migrated() {
            return Err(MigrationError::NotApplied);
        }
        let n = table.rows.len();
        let mut new_rows: Vec<TableRow> = Vec::new();
        let mut i: usize = 0;
        while i < n
            invariant
                i <= n,
                n == table.rows().len(),
                *table == *old(table),
                old(table).wf(),
                new_rows@.len() == i,
                forall|j: int|
                    0 <= j < i ==> row_dropped(table.rows()[j], #[trigger] new_rows@[j]),
            decreases n - i,
        {
            let row = &table.rows[i];
            new_rows.push(
                TableRow {
                    id: row.id,
                    content: duplicate_content(&row.content),
                    content_hash: None,
                },
            );
            i += 1;
        }
        table.rows = new_rows;
        table.has_hash_column = false;
        Ok(())
    }
}

/// Law (migration round trip): `up` followed by `down` leaves every row's
/// identifier and content exactly as they were and ends with the column's
/// values absent — nothing besides the content hash column is altered in
/// either direction.
pub proof fn lemma_migration_round_trip(t0: Seq<TableRow>, t1: Seq<TableRow>, t2: Seq<TableRow>)
    requires
        t1.len() == t0.len(),
        forall|i: int| 0 <= i < t0.len() ==> row_migrated(t0[i], #[trigger] t1[i]),
        t2.len() == t1.len(),
        forall|i: int| 0 <= i < t1.len() ==> row_dropped(t1[i], #[trigger] t2[i]),
    ensures
        t2.len() == t0.len(),
        forall|i: int|
            0 <= i < t0.len() ==> (#[trigger] t2[i]).id == t0[i].id && t2[i].content_view()
                == t0[i].content_view() && t2[i].hash_view() is None,
{
}

/// Law (backfill determinism): `up` assigns equal hashes to rows whose
/// stored contents are equal.
pub proof fn lemma_backfill_equal_content_equal_hash(
    t0: Seq<TableRow>,
    t1: Seq<TableRow>,
    i: int,
    j: int,
)
    requires
        t1.len() == t0.len(),
        forall|k: int| 0 <= k < t0.len() ==> row_migrated(t0[k], #[trigger] t1[k]),
        0 <= i < t0.len(),
        0 <= j < t0.len(),
        t0[i].hash_view() is None,
        t0[j].hash_view() is None,
        t0[i].content_view() == t0[j].content_view(),
    ensures
        t1[i].hash_view() == t1[j].hash_view(),
{
}

/// Verified deep copy of a row's optional content.
fn duplicate_content(c: &Option<Vec<u8>>) -> (r: Option<Vec<u8>>)
    ensures
        (match r {
            Some(v) => Some(v@),
            None => None,
        }) == (match c {
            Some(v) => Some(v@),
            None => None,
        }),
{
    match c {
        Some(v) => {
            let n = v.len();
            let mut out: Vec<u8> = Vec::new();
            let mut i: usize = 0;
            while i < n
                invariant
                    i <= n,
                    n == v@.len(),
                    out@ =~= v@.subrange(0, i as int),
                decreases n - i,
            {
                out.push(v[i]);
                i += 1;
            }
            proof {
                assert(out@ =~= v@);
            }
            Some(out)
        },
        None => None,
    }
}

/// Verified deep copy of a row's optional hash.
fn duplicate_hash(h: &Option<Digest>) -> (r: Option<Digest>)
    ensures
        (match r {
            Some(d) => Some(d@),
            None => None,
        }) == (match h {
            Some(d) => Some(d@),
            None => None,
        }),
{
    match h {
        Some(d) => Some(d.duplicate()),
        None => None,
    }
}

} // verus!
