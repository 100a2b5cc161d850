//! Domain logic for file management: business rules applied before the
//! raw storage operations of an adapter.

use vstd::prelude::*;

use crate::domain::ports;
use crate::domain::services::file_manager::{self, FileManagerError};
use crate::domain::types::file::{
    file::{update_metadata_ok, File, NewFile, UpdateFile},
    file_metadata::{Metadata, NewMetadata, UpdateMetadata},
    file_query::FileQuery,
};
use crate::text::{is_blank, str_is_blank};

verus! {

/// Domain orchestrator for file management: validates requests, then
/// delegates the storage operations to a `ports::FileManager` adapter.
///
/// `A` is the type of the adapter; the orchestrator is built around a boxed
/// adapter of any kind, the default.
pub struct FileManagerLogic<A = Box<dyn ports::FileManager>> {
    adapter: A,
}

impl<A> FileManagerLogic<A> {
    /// The storage adapter that the orchestrator delegates to.
    pub closed spec fn adapter(&self) -> A {
        self.adapter
    }
}

impl FileManagerLogic {
    /// Builds the orchestrator around a storage adapter.
    pub fn new(adapter: Box<dyn ports::FileManager>) -> (r: Self)
        ensures
            r.adapter() == adapter,
    {
        let r = FileManagerLogic { adapter };
        assert(r.adapter == adapter);
        r
    }

    /// Whether `r` is an outcome of the adapter's `create_file` for `new_file`.
    pub open spec fn adapter_creates(&self, new_file: NewFile, r: Result<File, FileManagerError>) -> bool {
        self.adapter().create_outcome(new_file, r)
    }

    /// Whether `r` is an outcome of the adapter's `create_file_bytes` for
    /// these arguments.
    pub open spec fn adapter_creates_bytes(
        &self,
        name: String,
        ext: String,
        mime: String,
        tags: Vec<String>,
        data: Vec<u8>,
        r: Result<Metadata, FileManagerError>,
    ) -> bool {
        self.adapter().create_bytes_outcome(name, ext, mime, tags, data, r)
    }

    /// Whether `r` is an outcome of the adapter's `read_file` for `file_id`.
    pub open spec fn adapter_reads(&self, file_id: u128, r: Result<File, FileManagerError>) -> bool {
        self.adapter().read_outcome(file_id, r)
    }

    /// Whether `r` is an outcome of the adapter's `read_file_bytes` for `file_id`.
    pub open spec fn adapter_reads_bytes(
        &self,
        file_id: u128,
        r: Result<(Metadata, Vec<u8>), FileManagerError>,
    ) -> bool {
        self.adapter().read_bytes_outcome(file_id, r)
    }

    /// Whether `r` is an outcome of the adapter's `list_files`.
    pub open spec fn adapter_lists(&self, r: Result<Vec<Metadata>, FileManagerError>) -> bool {
        self.adapter().list_outcome(r)
    }

    /// Whether `r` is an outcome of the adapter's `list_all_tags`.
    pub open spec fn adapter_lists_tags(&self, r: Result<Vec<String>, FileManagerError>) -> bool {
        self.adapter().tags_outcome(r)
    }

    /// Whether `r` is an outcome of the adapter's `update_file` for
    /// `file_id` and `update`.
    pub open spec fn adapter_updates(
        &self,
        file_id: u128,
        update: UpdateFile,
        r: Result<File, FileManagerError>,
    ) -> bool {
        self.adapter().update_outcome(file_id, update, r)
    }

    /// Whether `r` is an outcome of the adapter's `delete_file` for `file_id`.
    pub open spec fn adapter_deletes(&self, file_id: u128, r: Result<(), FileManagerError>) -> bool {
        self.adapter().delete_outcome(file_id, r)
    }

    /// Whether `r` is an outcome of the adapter's `find` for `query`.
    pub open spec fn adapter_finds(&self, query: FileQuery, r: Result<Vec<Metadata>, FileManagerError>) -> bool {
        self.adapter().find_outcome(query, r)
    }
}

/// Whether a creation request carries valid metadata.
pub open spec fn new_file_ok(new_file: NewFile) -> bool {
    NewMetadata::is_valid(
        new_file.metadata.name@,
        new_file.metadata.ext@,
        new_file.metadata.tags@,
        new_file.metadata.mime@,
    )
}

/// The validation message for a creation request with invalid metadata.
pub open spec fn new_file_refusal(new_file: NewFile) -> Seq<char> {
    NewMetadata::refusal_text(
        new_file.metadata.name@,
        new_file.metadata.ext@,
        new_file.metadata.tags@,
        new_file.metadata.mime@,
    )
}

/// The validation message for a change request with invalid metadata.
pub open spec fn update_refusal(update: UpdateFile) -> Seq<char> {
    let m = update.metadata->0;
    UpdateMetadata::refusal_text(m.name, m.ext, m.tags, m.mime)
}

/// The validation message for an upload, if its name or extension is
/// blank.
pub open spec fn upload_refusal(name: Seq<char>, ext: Seq<char>) -> Option<Seq<char>> {
    if is_blank(name) {
        Some("File name cannot be empty"@)
    } else if is_blank(ext) {
        Some("Extension cannot be empty"@)
    } else {
        None
    }
}

impl file_manager::FileManager for FileManagerLogic {
    /// Validates the metadata, then hands the request to the adapter.
    fn create_file(&self, new_file: NewFile) -> (r: Result<File, FileManagerError>)
        ensures
            !new_file_ok(new_file) ==> (r matches Err(FileManagerError::ValidationError(m)) && m@
                == new_file_refusal(new_file)),
            new_file_ok(new_file) ==> self.adapter_creates(new_file, r),
    {
        let ghost original = new_file;
        let validated = match NewFile::new(new_file.metadata, new_file.content) {
            Ok(v) => v,
            Err(e) => {
                proof {
                    NewMetadata::lemma_refusal_text(
                        original.metadata.name,
                        original.metadata.ext,
                        original.metadata.tags@,
                        original.metadata.mime,
                        e,
                    );
                }
                return Err(FileManagerError::ValidationError(e.to_string()));
            },
        };
        self.adapter.create_file(validated)
    }

    /// Refuses a blank name or extension, then hands the upload to the
    /// adapter.
    fn create_file_bytes(
        &self,
        name: String,
        ext: String,
        mime: String,
        tags: Vec<String>,
        data: Vec<u8>,
    ) -> (r: Result<Metadata, FileManagerError>)
        ensures
            upload_refusal(name@, ext@) matches Some(t) ==> (r matches Err(
                FileManagerError::ValidationError(m),
            ) && m@ == t),
            upload_refusal(name@, ext@) is None ==> self.adapter_creates_bytes(
                name,
                ext,
                mime,
                tags,
                data,
                r,
            ),
    {
        if str_is_blank(name.as_str()) {
            return Err(FileManagerError::ValidationError(String::from_str("File name cannot be empty")));
        }
        if str_is_blank(ext.as_str()) {
            return Err(FileManagerError::ValidationError(String::from_str("Extension cannot be empty")));
        }
        self.adapter.create_file_bytes(name, ext, mime, tags, data)
    }

    /// Hands the read to the adapter and gives back its outcome.
    fn read_file(&self, file_id: u128) -> (r: Result<File, FileManagerError>)
        ensures
            self.adapter_reads(file_id, r),
    {
        self.adapter.read_file(file_id)
    }

    /// Hands the read to the adapter and gives back its outcome.
    fn read_file_bytes(&self, file_id: u128) -> (r: Result<(Metadata, Vec<u8>), FileManagerError>)
        ensures
            self.adapter_reads_bytes(file_id, r),
    {
        self.adapter.read_file_bytes(file_id)
    }

    /// Hands the listing to the adapter and gives back its outcome.
    fn list_files(&self) -> (r: Result<Vec<Metadata>, FileManagerError>)
        ensures
            self.adapter_lists(r),
    {
        self.adapter.list_files()
    }

    /// Hands the tag listing to the adapter and gives back its outcome.
    fn list_all_tags(&self) -> (r: Result<Vec<String>, FileManagerError>)
        ensures
            self.adapter_lists_tags(r),
    {
        self.adapter.list_all_tags()
    }

    /// Validates the metadata changes, then hands the request to the
    /// adapter.
    fn update_file(&self, file_id: u128, update: UpdateFile) -> (r: Result<File, FileManagerError>)
        ensures
            !update_metadata_ok(update.metadata) ==> (r matches Err(
                FileManagerError::ValidationError(m),
            ) && m@ == update_refusal(update)),
            update_metadata_ok(update.metadata) ==> self.adapter_updates(file_id, update, r),
    {
        let ghost original = update;
        let validated = match UpdateFile::new(update.metadata, update.content) {
            Ok(v) => v,
            Err(e) => {
                proof {
                    let m = original.metadata->0;
                    UpdateMetadata::lemma_refusal_text(m.name, m.ext, m.tags, m.mime, e);
                }
                return Err(FileManagerError::ValidationError(e.to_string()));
            },
        };
        self.adapter.update_file(file_id, validated)
    }

    /// Hands the deletion to the adapter and gives back its outcome.
    fn delete_file(&self, file_id: u128) -> (r: Result<(), FileManagerError>)
        ensures
            self.adapter_deletes(file_id, r),
    {
        self.adapter.delete_file(file_id)
    }

    /// Checks the query for consistency, then hands it to the adapter.
    fn find(&self, query: FileQuery) -> (r: Result<Vec<Metadata>, FileManagerError>)
        ensures
            query.problem() matches Some(p) ==> (r matches Err(FileManagerError::ValidationError(m))
                && m@ == FileQuery::problem_text(p)),
            query.problem() is None ==> self.adapter_finds(query, r),
    {
        match query.verify() {
            Ok(()) => {},
            Err(m) => {
                return Err(FileManagerError::ValidationError(m));
            },
        }
        self.adapter.find(query)
    }
}

} // verus!
