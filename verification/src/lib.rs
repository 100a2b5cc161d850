//! A file store with validated metadata, queries and Git synchronisation.

pub mod domain;
pub mod inbound;
pub mod outbound;
pub mod text;
