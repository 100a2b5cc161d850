//! `POST /api/files`: the request that creates a text file, and the file
//! answer.

use vstd::prelude::*;

use crate::domain::types::file::{
    file::{File, NewFile},
    file_id::{id_text, uuid_to_string},
    file_metadata::NewMetadata,
};

verus! {

/// The body of a file-creation request. A missing `tags` is an empty list;
/// a missing `mime` is `default_mime()`.
#[derive(Debug)]
pub struct CreateFileRequest {
    pub name: String,
    pub ext: String,
    pub tags: Vec<String>,
    pub mime: String,
    pub content: Option<String>,
}

/// The MIME type of a created file when the request names none.
pub fn default_mime() -> (r: String)
    ensures
        r@ == "text/markdown"@,
{
    String::from_str("text/markdown")
}

impl CreateFileRequest {
    /// The creation request that this body asks for.
    pub fn into_new_file(self) -> (f: NewFile)
        ensures
            f == (NewFile {
                metadata: NewMetadata {
                    name: self.name,
                    ext: self.ext,
                    tags: self.tags,
                    mime: self.mime,
                },
                content: self.content,
            }),
    {
        NewFile {
            metadata: NewMetadata { name: self.name, ext: self.ext, tags: self.tags, mime: self.mime },
            content: self.content,
        }
    }
}

/// The JSON answer that describes a file; `content` is left out of the
/// JSON when absent.
#[derive(Debug)]
pub struct FileResponse {
    pub id: String,
    pub name: String,
    pub ext: String,
    pub tags: Vec<String>,
    pub size: u64,
    pub mime: String,
    pub created_at: String,
    pub modified_at: String,
    pub content: Option<String>,
}

/// The answer that describes a text file with its content; the id is the
/// file's id in hyphenated form.
pub fn file_to_response(file: File) -> (r: FileResponse)
    ensures
        r.id@ == id_text(file.id),
        r.name == file.metadata.name,
        r.ext == file.metadata.ext,
        r.tags == file.metadata.tags,
        r.size == file.metadata.size,
        r.mime == file.metadata.mime,
        r.created_at == file.metadata.created_at,
        r.modified_at == file.metadata.modified_at,
        r.content == Some(file.content),
{
    FileResponse {
        id: uuid_to_string(file.id),
        name: file.metadata.name,
        ext: file.metadata.ext,
        tags: file.metadata.tags,
        size: file.metadata.size,
        mime: file.metadata.mime,
        created_at: file.metadata.created_at,
        modified_at: file.metadata.modified_at,
        content: Some(file.content),
    }
}

} // verus!
