//! `GET /api/files`: the listing of stored files.

use vstd::prelude::*;

use crate::domain::types::file::{file_id::{id_text, uuid_to_string}, file_metadata::Metadata};

verus! {

/// The JSON answer that describes a stored file without its content.
#[derive(Debug)]
pub struct MetadataResponse {
    pub id: String,
    pub name: String,
    pub ext: String,
    pub tags: Vec<String>,
    pub size: u64,
    pub mime: String,
    pub created_at: String,
    pub modified_at: String,
}

impl MetadataResponse {
    /// Whether `r` describes the metadata `m`.
    pub open spec fn describes(r: MetadataResponse, m: Metadata) -> bool {
        &&& r.id@ == id_text(m.id)
        &&& r.name == m.name
        &&& r.ext == m.ext
        &&& r.tags == m.tags
        &&& r.size == m.size
        &&& r.mime == m.mime
        &&& r.created_at == m.created_at
        &&& r.modified_at == m.modified_at
    }

    /// The answer that describes a file's metadata.
    pub fn from_metadata(m: Metadata) -> (r: Self)
        ensures
            Self::describes(r, m),
    {
        MetadataResponse {
            id: uuid_to_string(m.id),
            name: m.name,
            ext: m.ext,
            tags: m.tags,
            size: m.size,
            mime: m.mime,
            created_at: m.created_at,
            modified_at: m.modified_at,
        }
    }
}

/// The answers that describe a listing, in its order.
pub fn to_responses(files: Vec<Metadata>) -> (r: Vec<MetadataResponse>)
    ensures
        r@.len() == files@.len(),
        forall|i: int| 0 <= i < files@.len() ==> MetadataResponse::describes(#[trigger] r@[i], files@[i]),
{
    let mut r: Vec<MetadataResponse> = Vec::new();
    let ghost mut i: int = 0;
    assert(files@.len() == files.len());
    for m in iter: files
        invariant
            iter.seq() == files@,
            i == iter.index(),
            i <= files@.len(),
            r@.len() == i,
            forall|k: int| 0 <= k < i ==> MetadataResponse::describes(#[trigger] r@[k], files@[k]),
    {
        r.push(MetadataResponse::from_metadata(m));
        proof {
            i = i + 1;
        }
    }
    r
}

} // verus!
