pub mod file_system;
pub mod git_synchronizer;
