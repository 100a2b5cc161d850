//! The primary interface for file management, and its errors.

use vstd::prelude::*;

use crate::domain::types::file::{
    file::{File, NewFile, UpdateFile},
    file_metadata::Metadata,
    file_query::FileQuery,
};

verus! {

/// The primary interface for file management operations.
pub trait FileManager: Send + Sync {
    fn create_file(&self, new_file: NewFile) -> Result<File, FileManagerError>;

    fn create_file_bytes(
        &self,
        name: String,
        ext: String,
        mime: String,
        tags: Vec<String>,
        data: Vec<u8>,
    ) -> Result<Metadata, FileManagerError>;

    fn read_file(&self, file_id: u128) -> Result<File, FileManagerError>;

    fn read_file_bytes(&self, file_id: u128) -> Result<(Metadata, Vec<u8>), FileManagerError>;

    fn list_files(&self) -> Result<Vec<Metadata>, FileManagerError>;

    fn list_all_tags(&self) -> Result<Vec<String>, FileManagerError>;

    fn update_file(&self, file_id: u128, update: UpdateFile) -> Result<File, FileManagerError>;

    fn delete_file(&self, file_id: u128) -> Result<(), FileManagerError>;

    fn find(&self, query: FileQuery) -> Result<Vec<Metadata>, FileManagerError>;
}

/// Why a file operation failed.
#[derive(Debug)]
pub enum FileManagerError {
    FileNotFound(String),
    FileAlreadyExists(String),
    PermissionDenied(String),
    ValidationError(String),
    IoError(String),
    UnknownError(String),
}

impl FileManagerError {
    /// The human-readable text of the error.
    pub open spec fn message(&self) -> Seq<char> {
        match self {
            FileManagerError::FileNotFound(s) => "File not found: "@ + s@,
            FileManagerError::FileAlreadyExists(s) => "File already exists: "@ + s@,
            FileManagerError::PermissionDenied(s) => "Permission denied: "@ + s@,
            FileManagerError::ValidationError(s) => "Validation error: "@ + s@,
            FileManagerError::IoError(s) => "IO error: "@ + s@,
            FileManagerError::UnknownError(s) => "Unknown error: "@ + s@,
        }
    }

    /// Renders the error as text.
    pub fn to_string(&self) -> (r: String)
        ensures
            r@ == self.message(),
    {
        let (prefix, detail) = match self {
            FileManagerError::FileNotFound(s) => (String::from_str("File not found: "), s),
            FileManagerError::FileAlreadyExists(s) => (String::from_str("File already exists: "), s),
            FileManagerError::PermissionDenied(s) => (String::from_str("Permission denied: "), s),
            FileManagerError::ValidationError(s) => (String::from_str("Validation error: "), s),
            FileManagerError::IoError(s) => (String::from_str("IO error: "), s),
            FileManagerError::UnknownError(s) => (String::from_str("Unknown error: "), s),
        };
        let mut r = prefix;
        r.append(detail.as_str());
        r
    }
}

} // verus!
