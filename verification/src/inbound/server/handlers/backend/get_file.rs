//! `GET /api/files/{id}`: a file's metadata, with its content when the
//! content is text.

use vstd::prelude::*;

use crate::domain::types::file::{file_id::{id_text, uuid_to_string}, file_metadata::Metadata};
use crate::text::utf8_to_string;

pub use crate::inbound::server::handlers::backend::create_file::FileResponse;

verus! {

/// The answer that describes a file from its metadata and, if given, its
/// content.
pub fn metadata_to_file_response(m: Metadata, content: Option<String>) -> (r: FileResponse)
    ensures
        r.id@ == id_text(m.id),
        r.name == m.name,
        r.ext == m.ext,
        r.tags == m.tags,
        r.size == m.size,
        r.mime == m.mime,
        r.created_at == m.created_at,
        r.modified_at == m.modified_at,
        r.content == content,
{
    FileResponse {
        id: uuid_to_string(m.id),
        name: m.name,
        ext: m.ext,
        tags: m.tags,
        size: m.size,
        mime: m.mime,
        created_at: m.created_at,
        modified_at: m.modified_at,
        content,
    }
}

/// The answer that describes a stored file from its metadata and bytes:
/// the content is the bytes as text when they are valid UTF-8, and absent
/// for a binary file.
pub fn file_response_from_bytes(m: Metadata, bytes: Vec<u8>) -> (r: FileResponse)
    ensures
        r.id@ == id_text(m.id),
        r.name == m.name,
        r.ext == m.ext,
        r.tags == m.tags,
        r.size == m.size,
        r.mime == m.mime,
        r.created_at == m.created_at,
        r.modified_at == m.modified_at,
        r.content is Some <==> vstd::utf8::valid_utf8(bytes@),
        r.content matches Some(c) ==> c@ == vstd::utf8::decode_utf8(bytes@),
{
    let content = utf8_to_string(bytes);
    metadata_to_file_response(m, content)
}

} // verus!
