//! A query builder for filtering and searching files.

use vstd::prelude::*;

verus! {

/// A flexible query for filtering and searching files.
///
/// * `extension` - filter by file extension (e.g. "rs", "md")
/// * `name_contains` - filter by partial name match
/// * `file_contains` - filter by a substring of the content
/// * `size_greater_than` - minimum size in bytes (inclusive)
/// * `size_smaller_than` - maximum size in bytes (inclusive)
/// * `tags` - tags the file must carry
/// * `modified_after` - earliest modification time (inclusive)
/// * `modified_before` - latest modification time (inclusive)
/// * `orphans` - only files with no backlinks
/// * `backlinks_to` - files that have backlinks to one of these ids
/// * `links_to` - files that link to this id
///
/// Times are nanoseconds relative to the UNIX epoch; ids are UUIDs as
/// 128-bit numbers. The file-system store keeps no links between files, so
/// its search applies none of the three link filters.
#[derive(Debug, Clone)]
pub struct FileQuery {
    pub extension: Option<String>,
    pub name_contains: Option<String>,
    pub file_contains: Option<String>,
    pub size_greater_than: Option<u64>,
    pub size_smaller_than: Option<u64>,
    pub tags: Option<Vec<String>>,
    pub modified_after: Option<i128>,
    pub modified_before: Option<i128>,
    pub orphans: bool,
    pub backlinks_to: Option<Vec<u128>>,
    pub links_to: Option<u128>,
}

/// The first rule of `FileQuery::verify` that a query breaks, if any.
pub enum QueryProblem {
    SizeRange,
    TimeRange,
    LinkFilters,
}

impl FileQuery {
    /// A query with every filter unset.
    pub open spec fn empty() -> FileQuery {
        FileQuery {
            extension: None,
            name_contains: None,
            file_contains: None,
            size_greater_than: None,
            size_smaller_than: None,
            tags: None,
            modified_after: None,
            modified_before: None,
            orphans: false,
            backlinks_to: None,
            links_to: None,
        }
    }

    /// Creates a new query with all filters unset.
    pub fn new() -> (q: Self)
        ensures
            q == Self::empty(),
    {
        FileQuery {
            extension: None,
            name_contains: None,
            file_contains: None,
            size_greater_than: None,
            size_smaller_than: None,
            tags: None,
            modified_after: None,
            modified_before: None,
            orphans: false,
            backlinks_to: None,
            links_to: None,
        }
    }

    /// Sets the file extension filter.
    pub fn with_extension(self, extension: String) -> (q: Self)
        ensures
            q == (FileQuery { extension: Some(extension), ..self }),
    {
        FileQuery { extension: Some(extension), ..self }
    }

    /// Sets the name substring filter.
    pub fn with_name_contains(self, name: String) -> (q: Self)
        ensures
            q == (FileQuery { name_contains: Some(name), ..self }),
    {
        FileQuery { name_contains: Some(name), ..self }
    }

    /// Sets the content substring filter.
    pub fn with_file_contains(self, content: String) -> (q: Self)
        ensures
            q == (FileQuery { file_contains: Some(content), ..self }),
    {
        FileQuery { file_contains: Some(content), ..self }
    }

    /// Sets the minimum size filter (inclusive).
    pub fn with_size_greater_than(self, size: u64) -> (q: Self)
        ensures
            q == (FileQuery { size_greater_than: Some(size), ..self }),
    {
        FileQuery { size_greater_than: Some(size), ..self }
    }

    /// Sets the maximum size filter (inclusive).
    pub fn with_size_smaller_than(self, size: u64) -> (q: Self)
        ensures
            q == (FileQuery { size_smaller_than: Some(size), ..self }),
    {
        FileQuery { size_smaller_than: Some(size), ..self }
    }

    /// Sets the tags filter.
    pub fn with_tags(self, tags: Vec<String>) -> (q: Self)
        ensures
            q == (FileQuery { tags: Some(tags), ..self }),
    {
        FileQuery { tags: Some(tags), ..self }
    }

    /// Sets the earliest modification time (inclusive).
    pub fn with_modified_after(self, time: i128) -> (q: Self)
        ensures
            q == (FileQuery { modified_after: Some(time), ..self }),
    {
        FileQuery { modified_after: Some(time), ..self }
    }

    /// Sets the latest modification time (inclusive).
    pub fn with_modified_before(self, time: i128) -> (q: Self)
        ensures
            q == (FileQuery { modified_before: Some(time), ..self }),
    {
        FileQuery { modified_before: Some(time), ..self }
    }

    /// Enables or disables the orphaned-files filter.
    pub fn with_orphans(self, orphans: bool) -> (q: Self)
        ensures
            q == (FileQuery { orphans: orphans, ..self }),
    {
        FileQuery { orphans, ..self }
    }

    /// Sets the backlinks filter; a query cannot also have `links_to`.
    pub fn with_backlinks_to(self, ids: Vec<u128>) -> (q: Self)
        ensures
            q == (FileQuery { backlinks_to: Some(ids), ..self }),
    {
        FileQuery { backlinks_to: Some(ids), ..self }
    }

    /// Sets the outgoing-links filter; a query cannot also have
    /// `backlinks_to`.
    pub fn with_links_to(self, id: u128) -> (q: Self)
        ensures
            q == (FileQuery { links_to: Some(id), ..self }),
    {
        FileQuery { links_to: Some(id), ..self }
    }

    /// The first consistency rule that the query breaks, if any: the size
    /// range is empty, the time range is empty, or both link filters are set.
    pub open spec fn problem(self) -> Option<QueryProblem> {
        if self.size_greater_than matches Some(g) && self.size_smaller_than matches Some(s) && g
            > s {
            Some(QueryProblem::SizeRange)
        } else if self.modified_after matches Some(a) && self.modified_before matches Some(b) && a
            > b {
            Some(QueryProblem::TimeRange)
        } else if self.backlinks_to is Some && self.links_to is Some {
            Some(QueryProblem::LinkFilters)
        } else {
            None
        }
    }

    /// The message that `verify` reports for a broken rule.
    pub open spec fn problem_text(p: QueryProblem) -> Seq<char> {
        match p {
            QueryProblem::SizeRange => "size_greater_than cannot be larger than size_smaller_than"@,
            QueryProblem::TimeRange => "modified_after cannot be later than modified_before"@,
            QueryProblem::LinkFilters => "backlinks_to and links_to cannot be used at the same time"@,
        }
    }

    /// Checks the query for logical consistency.
    pub fn verify(&self) -> (r: Result<(), String>)
        ensures
            r is Ok <==> self.problem() is None,
            r matches Err(m) ==> m@ == Self::problem_text(self.problem()->0),
    {
        if let (Some(greater), Some(smaller)) = (self.size_greater_than, self.size_smaller_than) {
            if greater > smaller {
                return Err(
                    String::from_str("size_greater_than cannot be larger than size_smaller_than"),
                );
            }
        }
        if let (Some(after), Some(before)) = (self.modified_after, self.modified_before) {
            if after > before {
                return Err(
                    String::from_str("modified_after cannot be later than modified_before"),
                );
            }
        }
        if self.backlinks_to.is_some() && self.links_to.is_some() {
            return Err(
                String::from_str("backlinks_to and links_to cannot be used at the same time"),
            );
        }
        Ok(())
    }
}

impl Default for FileQuery {
    /// The query with every filter unset, as `new` builds it.
    fn default() -> (q: Self)
        ensures
            q == Self::empty(),
    {
        Self::new()
    }
}

/// A query with no filters set is consistent.
pub proof fn law_empty_query_is_consistent()
    ensures
        FileQuery::empty().problem() is None,
{
}

} // verus!
