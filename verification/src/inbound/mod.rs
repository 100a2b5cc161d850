pub mod cli;
pub mod server;
