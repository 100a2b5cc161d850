//! Shared application state of the HTTP server.

use vstd::prelude::*;

use std::sync::Arc;

use crate::domain::logic::file_manager::FileManagerLogic;

verus! {

/// Shared application state, handed to the HTTP handlers: the domain
/// orchestrator, shared between threads.
#[derive(Clone)]
pub struct AppState {
    pub file_manager: Arc<FileManagerLogic>,
}

} // verus!
