//! Error taxonomy of the cache core. Nothing here is caught and suppressed
//! inside the core: every error propagates to the caller, which decides the
//! retry or abort policy.

use vstd::prelude::*;

verus! {

/// Errors surfaced by the blob record store and the row-level table
/// operations.
#[derive(Clone, Copy, PartialEq, Eq, Structural, Debug)]
pub enum StoreError {
    /// An insert targeted an `id` (or a content hash, under the dedup
    /// constraint) that already exists.
    DuplicateKey,
    /// The target of a by-id operation does not exist.
    NotFound,
}

/// Error surfaced by the outcome accountant.
#[derive(Clone, Copy, PartialEq, Eq, Structural, Debug)]
pub enum AccountingError {
    /// Negative or otherwise nonsensical avoided-cost values; the whole
    /// event is rejected and nothing is recorded.
    InvalidSavings,
}

/// Errors surfaced by the schema migration.
#[derive(Clone, Copy, PartialEq, Eq, Structural, Debug)]
pub enum MigrationError {
    /// `up` was asked of a schema that already carries the content-hash
    /// column; the schema is left untouched.
    AlreadyApplied,
    /// `down` was asked of a schema without the content-hash column; the
    /// schema is left untouched.
    NotApplied,
    /// A pre-existing row's content is inaccessible, so the backfill cannot
    /// complete; the schema is left in its pre-migration state.
    BackfillIncomplete,
}

} // verus!
