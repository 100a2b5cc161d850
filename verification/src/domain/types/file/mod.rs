pub mod file;
pub mod file_id;
pub mod file_metadata;
pub mod file_query;
pub mod timestamp;
