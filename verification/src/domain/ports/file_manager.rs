//! The raw storage operations that a storage adapter provides.

use vstd::prelude::*;

use crate::domain::services::file_manager::FileManagerError;
use crate::domain::types::file::{
    file::{File, NewFile, UpdateFile},
    file_metadata::Metadata,
    file_query::FileQuery,
};

verus! {

/// Outbound port: the raw storage operations that an infrastructure
/// adapter (such as a file-system store) must provide.
///
/// Each operation comes with a spec function that names its outcomes for
/// given arguments, so that callers can state that they hand a request on
/// unchanged and give the adapter's result back. What the results are
/// depends on what the store holds, so the port constrains no adapter: by
/// default every result counts as an outcome.
pub trait FileManager: Send + Sync {
    /// Whether `r` is an outcome of this adapter's `create_file` for `new_file`.
    closed spec fn create_outcome(&self, new_file: NewFile, r: Result<File, FileManagerError>) -> bool {
        true
    }

    /// Whether `r` is an outcome of this adapter's `create_file_bytes` for
    /// these arguments.
    closed spec fn create_bytes_outcome(
        &self,
        name: String,
        ext: String,
        mime: String,
        tags: Vec<String>,
        data: Vec<u8>,
        r: Result<Metadata, FileManagerError>,
    ) -> bool {
        true
    }

    /// Whether `r` is an outcome of this adapter's `read_file` for `file_id`.
    closed spec fn read_outcome(&self, file_id: u128, r: Result<File, FileManagerError>) -> bool {
        true
    }

    /// Whether `r` is an outcome of this adapter's `read_file_bytes` for `file_id`.
    closed spec fn read_bytes_outcome(
        &self,
        file_id: u128,
        r: Result<(Metadata, Vec<u8>), FileManagerError>,
    ) -> bool {
        true
    }

    /// Whether `r` is an outcome of this adapter's `list_files`.
    closed spec fn list_outcome(&self, r: Result<Vec<Metadata>, FileManagerError>) -> bool {
        true
    }

    /// Whether `r` is an outcome of this adapter's `list_all_tags`.
    closed spec fn tags_outcome(&self, r: Result<Vec<String>, FileManagerError>) -> bool {
        true
    }

    /// Whether `r` is an outcome of this adapter's `update_file` for
    /// `file_id` and `update`.
    closed spec fn update_outcome(
        &self,
        file_id: u128,
        update: UpdateFile,
        r: Result<File, FileManagerError>,
    ) -> bool {
        true
    }

    /// Whether `r` is an outcome of this adapter's `delete_file` for `file_id`.
    closed spec fn delete_outcome(&self, file_id: u128, r: Result<(), FileManagerError>) -> bool {
        true
    }

    /// Whether `r` is an outcome of this adapter's `find` for `query`.
    closed spec fn find_outcome(&self, query: FileQuery, r: Result<Vec<Metadata>, FileManagerError>) -> bool {
        true
    }

    fn create_file(&self, new_file: NewFile) -> (r: Result<File, FileManagerError>)
        ensures
            self.create_outcome(new_file, r),
    ;

    fn create_file_bytes(
        &self,
        name: String,
        ext: String,
        mime: String,
        tags: Vec<String>,
        data: Vec<u8>,
    ) -> (r: Result<Metadata, FileManagerError>)
        ensures
            self.create_bytes_outcome(name, ext, mime, tags, data, r),
    ;

    fn read_file(&self, file_id: u128) -> (r: Result<File, FileManagerError>)
        ensures
            self.read_outcome(file_id, r),
    ;

    fn read_file_bytes(&self, file_id: u128) -> (r: Result<(Metadata, Vec<u8>), FileManagerError>)
        ensures
            self.read_bytes_outcome(file_id, r),
    ;

    fn list_files(&self) -> (r: Result<Vec<Metadata>, FileManagerError>)
        ensures
            self.list_outcome(r),
    ;

    fn list_all_tags(&self) -> (r: Result<Vec<String>, FileManagerError>)
        ensures
            self.tags_outcome(r),
    ;

    fn update_file(&self, file_id: u128, update: UpdateFile) -> (r: Result<File, FileManagerError>)
        ensures
            self.update_outcome(file_id, update, r),
    ;

    fn delete_file(&self, file_id: u128) -> (r: Result<(), FileManagerError>)
        ensures
            self.delete_outcome(file_id, r),
    ;

    fn find(&self, query: FileQuery) -> (r: Result<Vec<Metadata>, FileManagerError>)
        ensures
            self.find_outcome(query, r),
    ;
}

} // verus!
