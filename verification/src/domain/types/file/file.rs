//! Files, and the requests that create or change them.

use vstd::prelude::*;

use crate::domain::types::file::file_metadata::{
    Metadata, MetadataCreationError, NewMetadata, UpdateMetadata,
};

verus! {

/// A stored text file: its id, its metadata and its content.
#[derive(Debug, Clone)]
pub struct File {
    pub id: u128,
    pub metadata: Metadata,
    pub content: String,
}

/// A request to create a file.
pub struct NewFile {
    pub metadata: NewMetadata,
    pub content: Option<String>,
}

impl NewFile {
    /// Builds a creation request, checking its metadata as
    /// `NewMetadata::new` does.
    pub fn new(metadata: NewMetadata, content: Option<String>) -> (r: Result<
        Self,
        MetadataCreationError,
    >)
        ensures
            r is Ok <==> NewMetadata::is_valid(
                metadata.name@,
                metadata.ext@,
                metadata.tags@,
                metadata.mime@,
            ),
            r matches Ok(f) ==> f.metadata == metadata && f.content == content,
            r matches Err(e) ==> NewMetadata::refusal(
                metadata.name,
                metadata.ext,
                metadata.tags@,
                metadata.mime,
                e,
            ),
    {
        let new_metadata = NewMetadata::new(metadata.name, metadata.ext, metadata.tags, metadata.mime)?;
        Ok(NewFile { metadata: new_metadata, content })
    }
}

/// A request to change a file; `None` leaves that part as it is.
pub struct UpdateFile {
    pub metadata: Option<UpdateMetadata>,
    pub content: Option<String>,
}

/// Whether an optional metadata update is valid (an absent one is).
pub open spec fn update_metadata_ok(metadata: Option<UpdateMetadata>) -> bool {
    metadata matches Some(m) ==> UpdateMetadata::is_valid(m.name, m.ext, m.tags, m.mime)
}

impl UpdateFile {
    /// Builds a change request, checking its metadata changes as
    /// `UpdateMetadata::new` does.
    pub fn new(metadata: Option<UpdateMetadata>, content: Option<String>) -> (r: Result<
        Self,
        MetadataCreationError,
    >)
        ensures
            r is Ok <==> update_metadata_ok(metadata),
            r matches Ok(f) ==> f.metadata == metadata && f.content == content,
            r matches Err(e) ==> metadata matches Some(m) && UpdateMetadata::refusal(
                m.name,
                m.ext,
                m.tags,
                m.mime,
                e,
            ),
    {
        let update_metadata = match metadata {
            Some(meta) => Some(UpdateMetadata::new(meta.name, meta.ext, meta.tags, meta.mime)?),
            None => None,
        };
        Ok(UpdateFile { metadata: update_metadata, content })
    }
}

} // verus!
