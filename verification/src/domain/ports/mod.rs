mod file_manager;
mod synchronisation;

pub use file_manager::FileManager;
pub use synchronisation::Synchronisation;
