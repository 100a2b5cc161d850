//! `PUT /api/files/{id}`: the request that changes a file.

use vstd::prelude::*;

use crate::domain::types::file::{file::UpdateFile, file_metadata::UpdateMetadata};

pub use crate::inbound::server::handlers::backend::create_file::{file_to_response, FileResponse};

verus! {

/// The body of a file-change request; absent fields are left unchanged.
#[derive(Debug)]
pub struct UpdateFileRequest {
    pub name: Option<String>,
    pub ext: Option<String>,
    pub tags: Option<Vec<String>>,
    pub mime: Option<String>,
    pub content: Option<String>,
}

impl UpdateFileRequest {
    /// The change request that this body asks for: it changes metadata
    /// only when the body gives some metadata field.
    pub fn into_update(self) -> (u: UpdateFile)
        ensures
            u.content == self.content,
            (self.name is None && self.ext is None && self.tags is None && self.mime is None)
                ==> u.metadata is None,
            !(self.name is None && self.ext is None && self.tags is None && self.mime is None)
                ==> u.metadata == Some(
                UpdateMetadata { name: self.name, ext: self.ext, tags: self.tags, mime: self.mime },
            ),
    {
        let has_meta = self.name.is_some() || self.ext.is_some() || self.tags.is_some()
            || self.mime.is_some();
        UpdateFile {
            metadata: if has_meta {
                Some(
                    UpdateMetadata {
                        name: self.name,
                        ext: self.ext,
                        tags: self.tags,
                        mime: self.mime,
                    },
                )
            } else {
                None
            },
            content: self.content,
        }
    }
}

} // verus!
