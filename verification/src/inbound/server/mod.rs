pub mod error_response;
pub mod handlers;
pub mod state;
