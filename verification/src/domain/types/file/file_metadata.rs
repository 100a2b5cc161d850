//! File metadata and the rules that new and updated metadata must obey.

use vstd::prelude::*;

use crate::text::{debug_list, debug_list_string, decimal, decimal_string, is_blank, str_is_blank, views};

verus! {

/// The stored description of a file. `id` is the file's UUID as a 128-bit
/// number (most significant byte first).
#[derive(Debug, Clone)]
pub struct Metadata {
    pub id: u128,
    pub name: String,
    pub ext: String,
    pub tags: Vec<String>,
    pub size: u64,
    pub mime: String,
    pub created_at: String,
    pub modified_at: String,
}

/// Why new or updated metadata was refused.
#[derive(Debug)]
pub enum MetadataCreationError {
    InvalidName(String),
    InvalidExtension(String),
    InvalidTags(String),
    InvalidMimeType(String),
    InvalidSize(u64),
    InvalidTimestamps(String, String),
}

impl MetadataCreationError {
    /// The human-readable text of the error.
    pub open spec fn message(&self) -> Seq<char> {
        match self {
            MetadataCreationError::InvalidName(n) => "Invalid name: '"@ + n@ + "'"@,
            MetadataCreationError::InvalidExtension(e) => "Invalid extension: '"@ + e@ + "'"@,
            MetadataCreationError::InvalidTags(t) => "Invalid tags: "@ + t@,
            MetadataCreationError::InvalidMimeType(m) => "Invalid MIME type: '"@ + m@ + "'"@,
            MetadataCreationError::InvalidSize(s) => "Invalid size: "@ + decimal(*s as nat),
            MetadataCreationError::InvalidTimestamps(a, b) => "Invalid timestamps: "@ + a@ + ", "@
                + b@,
        }
    }

    /// Renders the error as text.
    pub fn to_string(&self) -> (s: String)
        ensures
            s@ == self.message(),
    {
        match self {
            MetadataCreationError::InvalidName(n) => {
                let mut s = String::from_str("Invalid name: '");
                s.append(n.as_str());
                s.append("'");
                s
            },
            MetadataCreationError::InvalidExtension(e) => {
                let mut s = String::from_str("Invalid extension: '");
                s.append(e.as_str());
                s.append("'");
                s
            },
            MetadataCreationError::InvalidTags(t) => {
                let mut s = String::from_str("Invalid tags: ");
                s.append(t.as_str());
                s
            },
            MetadataCreationError::InvalidMimeType(m) => {
                let mut s = String::from_str("Invalid MIME type: '");
                s.append(m.as_str());
                s.append("'");
                s
            },
            MetadataCreationError::InvalidSize(n) => {
                let mut s = String::from_str("Invalid size: ");
                let d = decimal_string(*n);
                s.append(d.as_str());
                s
            },
            MetadataCreationError::InvalidTimestamps(a, b) => {
                let mut s = String::from_str("Invalid timestamps: ");
                s.append(a.as_str());
                s.append(", ");
                s.append(b.as_str());
                s
            },
        }
    }
}

/// Whether some tag of the list is blank.
pub open spec fn has_blank_tag(tags: Seq<String>) -> bool {
    exists|i: int| 0 <= i < tags.len() && is_blank(#[trigger] tags[i]@)
}

/// The text of the `InvalidTags` error for a tag list.
pub open spec fn blank_tags_text(tags: Seq<String>) -> Seq<char> {
    "Tags cannot contain empty strings: "@ + debug_list(views(tags))
}

/// Whether a tag list holds a blank tag, and the error text it gets.
fn check_tags(tags: &Vec<String>) -> (r: Option<String>)
    ensures
        r is None <==> !has_blank_tag(tags@),
        r matches Some(t) ==> t@ == blank_tags_text(tags@),
{
    let mut i: usize = 0;
    while i < tags.len()
        invariant
            i <= tags.len(),
            forall|j: int| 0 <= j < i ==> !is_blank(#[trigger] tags@[j]@),
        decreases tags.len() - i,
    {
        if str_is_blank(tags[i].as_str()) {
            let mut t = String::from_str("Tags cannot contain empty strings: ");
            let d = debug_list_string(tags);
            t.append(d.as_str());
            return Some(t);
        }
        i = i + 1;
    }
    None
}

/// Metadata for a file about to be created.
pub struct NewMetadata {
    pub name: String,
    pub ext: String,
    pub tags: Vec<String>,
    pub mime: String,
}

impl NewMetadata {
    /// Whether these fields make valid new metadata: name, extension and
    /// MIME type not blank, and no blank tag.
    pub open spec fn is_valid(name: Seq<char>, ext: Seq<char>, tags: Seq<String>, mime: Seq<char>) -> bool {
        &&& !is_blank(name)
        &&& !is_blank(ext)
        &&& !has_blank_tag(tags)
        &&& !is_blank(mime)
    }

    /// The error that `new` gives for invalid fields: the first rule
    /// broken, in the order name, extension, tags, MIME type.
    pub open spec fn refusal(
        name: String,
        ext: String,
        tags: Seq<String>,
        mime: String,
        e: MetadataCreationError,
    ) -> bool {
        if is_blank(name@) {
            e == MetadataCreationError::InvalidName(name)
        } else if is_blank(ext@) {
            e == MetadataCreationError::InvalidExtension(ext)
        } else if has_blank_tag(tags) {
            e matches MetadataCreationError::InvalidTags(t) && t@ == blank_tags_text(tags)
        } else {
            e == MetadataCreationError::InvalidMimeType(mime)
        }
    }

    /// The text of the error that `new` gives for invalid fields.
    pub open spec fn refusal_text(name: Seq<char>, ext: Seq<char>, tags: Seq<String>, mime: Seq<char>) -> Seq<char> {
        if is_blank(name) {
            "Invalid name: '"@ + name + "'"@
        } else if is_blank(ext) {
            "Invalid extension: '"@ + ext + "'"@
        } else if has_blank_tag(tags) {
            "Invalid tags: "@ + blank_tags_text(tags)
        } else {
            "Invalid MIME type: '"@ + mime + "'"@
        }
    }

    /// The error that `refusal` describes reads as `refusal_text`.
    pub proof fn lemma_refusal_text(name: String, ext: String, tags: Seq<String>, mime: String, e: MetadataCreationError)
        requires
            Self::refusal(name, ext, tags, mime, e),
        ensures
            e.message() == Self::refusal_text(name@, ext@, tags, mime@),
    {
    }

    /// Builds new metadata from its fields, checking them.
    pub fn new(name: String, ext: String, tags: Vec<String>, mime: String) -> (r: Result<
        Self,
        MetadataCreationError,
    >)
        ensures
            r is Ok <==> Self::is_valid(name@, ext@, tags@, mime@),
            r matches Ok(m) ==> m.name == name && m.ext == ext && m.tags == tags && m.mime == mime,
            r matches Err(e) ==> Self::refusal(name, ext, tags@, mime, e),
    {
        let new_metadata = NewMetadata { name, ext, tags, mime };
        match new_metadata.validate() {
            Ok(()) => Ok(new_metadata),
            Err(e) => Err(e),
        }
    }

    fn validate(&self) -> (r: Result<(), MetadataCreationError>)
        ensures
            r is Ok <==> Self::is_valid(self.name@, self.ext@, self.tags@, self.mime@),
            r matches Err(e) ==> Self::refusal(self.name, self.ext, self.tags@, self.mime, e),
    {
        if str_is_blank(self.name.as_str()) {
            return Err(MetadataCreationError::InvalidName(self.name.clone()));
        }
        if str_is_blank(self.ext.as_str()) {
            return Err(MetadataCreationError::InvalidExtension(self.ext.clone()));
        }
        match check_tags(&self.tags) {
            Some(t) => {
                return Err(MetadataCreationError::InvalidTags(t));
            },
            None => {},
        }
        if str_is_blank(self.mime.as_str()) {
            return Err(MetadataCreationError::InvalidMimeType(self.mime.clone()));
        }
        Ok(())
    }
}

/// Changes to the metadata of a stored file; `None` leaves a field as it is.
pub struct UpdateMetadata {
    pub name: Option<String>,
    pub ext: Option<String>,
    pub tags: Option<Vec<String>>,
    pub mime: Option<String>,
}

/// Whether an optional text is present and blank.
pub open spec fn blank_if_some(s: Option<String>) -> bool {
    s matches Some(v) && is_blank(v@)
}

/// Whether an optional tag list is present and holds a blank tag.
pub open spec fn blank_tag_if_some(tags: Option<Vec<String>>) -> bool {
    tags matches Some(t) && has_blank_tag(t@)
}

impl UpdateMetadata {
    /// Whether these changes are valid: no field that is given is blank,
    /// and a given tag list holds no blank tag.
    pub open spec fn is_valid(
        name: Option<String>,
        ext: Option<String>,
        tags: Option<Vec<String>>,
        mime: Option<String>,
    ) -> bool {
        &&& !blank_if_some(name)
        &&& !blank_if_some(ext)
        &&& !blank_tag_if_some(tags)
        &&& !blank_if_some(mime)
    }

    /// The error that `new` gives for invalid changes: the first rule
    /// broken, in the order name, extension, tags, MIME type.
    pub open spec fn refusal(
        name: Option<String>,
        ext: Option<String>,
        tags: Option<Vec<String>>,
        mime: Option<String>,
        e: MetadataCreationError,
    ) -> bool {
        if blank_if_some(name) {
            e == MetadataCreationError::InvalidName(name->0)
        } else if blank_if_some(ext) {
            e == MetadataCreationError::InvalidExtension(ext->0)
        } else if blank_tag_if_some(tags) {
            e matches MetadataCreationError::InvalidTags(t) && t@ == blank_tags_text(tags->0@)
        } else {
            e == MetadataCreationError::InvalidMimeType(mime->0)
        }
    }

    /// The text of the error that `new` gives for invalid changes.
    pub open spec fn refusal_text(
        name: Option<String>,
        ext: Option<String>,
        tags: Option<Vec<String>>,
        mime: Option<String>,
    ) -> Seq<char> {
        if blank_if_some(name) {
            "Invalid name: '"@ + name->0@ + "'"@
        } else if blank_if_some(ext) {
            "Invalid extension: '"@ + ext->0@ + "'"@
        } else if blank_tag_if_some(tags) {
            "Invalid tags: "@ + blank_tags_text(tags->0@)
        } else {
            "Invalid MIME type: '"@ + mime->0@ + "'"@
        }
    }

    /// The error that `refusal` describes reads as `refusal_text`.
    pub proof fn lemma_refusal_text(
        name: Option<String>,
        ext: Option<String>,
        tags: Option<Vec<String>>,
        mime: Option<String>,
        e: MetadataCreationError,
    )
        requires
            Self::refusal(name, ext, tags, mime, e),
        ensures
            e.message() == Self::refusal_text(name, ext, tags, mime),
    {
    }

    /// Builds a metadata update from its fields, checking them.
    pub fn new(
        name: Option<String>,
        ext: Option<String>,
        tags: Option<Vec<String>>,
        mime: Option<String>,
    ) -> (r: Result<Self, MetadataCreationError>)
        ensures
            r is Ok <==> Self::is_valid(name, ext, tags, mime),
            r matches Ok(m) ==> m.name == name && m.ext == ext && m.tags == tags && m.mime == mime,
            r matches Err(e) ==> Self::refusal(name, ext, tags, mime, e),
    {
        let update_metadata = UpdateMetadata { name, ext, tags, mime };
        match update_metadata.validate() {
            Ok(()) => Ok(update_metadata),
            Err(e) => Err(e),
        }
    }

    fn validate(&self) -> (r: Result<(), MetadataCreationError>)
        ensures
            r is Ok <==> Self::is_valid(self.name, self.ext, self.tags, self.mime),
            r matches Err(e) ==> Self::refusal(self.name, self.ext, self.tags, self.mime, e),
    {
        if let Some(name) = &self.name {
            if str_is_blank(name.as_str()) {
                return Err(MetadataCreationError::InvalidName(name.clone()));
            }
        }
        if let Some(ext) = &self.ext {
            if str_is_blank(ext.as_str()) {
                return Err(MetadataCreationError::InvalidExtension(ext.clone()));
            }
        }
        if let Some(tags) = &self.tags {
            match check_tags(tags) {
                Some(t) => {
                    return Err(MetadataCreationError::InvalidTags(t));
                },
                None => {},
            }
        }
        if let Some(mime) = &self.mime {
            if str_is_blank(mime.as_str()) {
                return Err(MetadataCreationError::InvalidMimeType(mime.clone()));
            }
        }
        Ok(())
    }
}

} // verus!
