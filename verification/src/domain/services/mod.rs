pub mod file_manager;
pub mod synchronisation;
