//! In-memory columnar storage for an embedded analytical query engine.
//!
//! A table holds immutable columnar batches behind a reader/writer lock;
//! rows are never removed, only marked deleted in a tombstone set. All
//! access goes through table-scoped transactions that give writers mutual
//! exclusion and let readers run concurrently. A small expression binder
//! resolves literals and column references into typed expression trees
//! for the surrounding executor.

pub mod array;
pub mod binder;
pub mod catalog;
pub mod numeric;
pub mod parser;
pub mod storage;
pub mod types;
