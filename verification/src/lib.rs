//! Core of a content-addressable result cache: a content hasher, a blob
//! record store keyed by content digest, a cache index that resolves job
//! fingerprints to blob records and deduplicates identical content, an
//! outcome accountant that keeps exact hit/miss and savings counters, and a
//! reversible schema migration that introduces the content-hash column the
//! index depends on.

pub mod accountant;
pub mod digest;
pub mod errors;
pub mod index;
pub mod migration;
pub mod store;
