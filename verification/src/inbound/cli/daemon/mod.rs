pub mod timer;
pub mod watcher;
