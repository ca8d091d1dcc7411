//! Mirrors a package registry to local disk: which archives to fetch and where, which to
//! extract, what to remove once the index no longer lists it, and the view of each
//! package's highest version. A bounded pool of permits caps the work running at once.
use vstd::prelude::*;

pub mod extract;
pub mod fetch;
pub mod index;
pub mod latest;
pub mod naming;
pub mod pool;
pub mod reconcile;
pub mod report;

verus! {

/// What can go wrong in a run.
pub enum Error {
    /// A remote fetch failed (connection, status, transport).
    FetchError(String),
    /// A filesystem operation failed.
    FileError(String),
    /// An archive could not be decompressed or unpacked.
    ArchiveError(String),
    /// The index lists no package at all.
    EmptyIndex,
}

} // verus!
