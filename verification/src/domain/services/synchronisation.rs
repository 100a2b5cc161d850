//! The synchronisation interface, its report and its errors.

use vstd::prelude::*;

verus! {

/// Keeps the stored files in step with a remote copy.
pub trait Synchronisation {
    fn synchronise(&self) -> Result<SynchronisationReport, SynchronisationError>;

    fn get_last_sync(&self) -> Result<SynchronisationReport, SynchronisationError>;
}

/// The state of the last synchronisation. `last_sync_time` is in
/// nanoseconds relative to the UNIX epoch; `pending_changes` is the size in
/// bytes of the changes not yet synchronised.
#[derive(Debug)]
pub struct SynchronisationReport {
    pub commit_name: String,
    pub last_sync_time: i128,
    pub pending_changes: usize,
}

/// Why a synchronisation failed.
#[derive(Debug)]
pub enum SynchronisationError {
    FirstTimeSync,
    NetworkError(String),
    SyncToolError(String),
    FileConflict(String),
    UnknownError(String),
}

} // verus!
