//! Domain logic for synchronisation: delegates to an adapter.

use vstd::prelude::*;

use crate::domain::ports;
use crate::domain::services::synchronisation::{self, SynchronisationError, SynchronisationReport};

verus! {

/// Domain orchestrator for synchronisation.
///
/// `A` is the type of the adapter; the orchestrator is built around a boxed
/// adapter of any kind, the default.
pub struct Synchronisation<A = Box<dyn ports::Synchronisation>> {
    adapter: A,
}

impl<A> Synchronisation<A> {
    /// The synchronisation adapter that the orchestrator delegates to.
    pub closed spec fn adapter(&self) -> A {
        self.adapter
    }
}

impl Synchronisation {
    /// Builds the orchestrator around a synchronisation adapter.
    pub fn new(adapter: Box<dyn ports::Synchronisation>) -> (r: Self)
        ensures
            r.adapter() == adapter,
    {
        let r = Synchronisation { adapter };
        assert(r.adapter == adapter);
        r
    }

    /// Whether `r` is an outcome of the adapter's `synchronise`.
    pub open spec fn adapter_synchronises(
        &self,
        r: Result<SynchronisationReport, SynchronisationError>,
    ) -> bool {
        self.adapter().synchronise_outcome(r)
    }

    /// Whether `r` is an outcome of the adapter's `get_last_sync`.
    pub open spec fn adapter_last_sync(
        &self,
        r: Result<SynchronisationReport, SynchronisationError>,
    ) -> bool {
        self.adapter().last_sync_outcome(r)
    }
}

impl synchronisation::Synchronisation for Synchronisation {
    /// Hands the synchronisation to the adapter and gives back its outcome.
    fn synchronise(&self) -> (r: Result<SynchronisationReport, SynchronisationError>)
        ensures
            self.adapter_synchronises(r),
    {
        self.adapter.synchronise()
    }

    /// Asks the adapter for the last synchronisation and gives back its
    /// outcome.
    fn get_last_sync(&self) -> (r: Result<SynchronisationReport, SynchronisationError>)
        ensures
            self.adapter_last_sync(r),
    {
        self.adapter.get_last_sync()
    }
}

} // verus!
