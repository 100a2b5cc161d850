//! The operations that a synchronisation adapter provides.

use vstd::prelude::*;

use crate::domain::services::synchronisation::{SynchronisationError, SynchronisationReport};

verus! {

/// Outbound port for synchronisation adapters.
///
/// Each operation comes with a spec function that names its outcomes, so
/// that callers can state that they give a call's result back unchanged.
/// What the results are depends on the repository and the remote, so the
/// port constrains no adapter: by default every result counts as an
/// outcome.
pub trait Synchronisation: Send + Sync {
    /// Whether `r` is an outcome of this adapter's `synchronise`.
    closed spec fn synchronise_outcome(&self, r: Result<SynchronisationReport, SynchronisationError>) -> bool {
        true
    }

    /// Whether `r` is an outcome of this adapter's `get_last_sync`.
    closed spec fn last_sync_outcome(&self, r: Result<SynchronisationReport, SynchronisationError>) -> bool {
        true
    }

    /// Registers any changes that need to be synchronised. Returns
    /// `Ok(true)` if changes were registered, `Ok(false)` if there were none.
    fn register_changes(&self) -> Result<bool, SynchronisationError>;

    fn synchronise(&self) -> (r: Result<SynchronisationReport, SynchronisationError>)
        ensures
            self.synchronise_outcome(r),
    ;

    fn get_last_sync(&self) -> (r: Result<SynchronisationReport, SynchronisationError>)
        ensures
            self.last_sync_outcome(r),
    ;
}

} // verus!
