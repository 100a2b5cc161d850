pub mod api;
pub mod backend;
