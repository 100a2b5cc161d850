pub mod create_file;
pub mod download_file;
pub mod get_file;
pub mod list_files;
pub mod update_file;
pub mod upload_file;
