//! The JSON API: request and response shapes, and the title shown for a
//! markdown file.

use vstd::prelude::*;

use crate::domain::logic::file_manager::FileManagerLogic;
use crate::domain::services::file_manager::{FileManager, FileManagerError};
use crate::domain::types::file::{file_id::{id_text, uuid_to_string}, file_metadata::Metadata};
use crate::text::{
    lemma_trim_idempotent, str_equals, utf8_to_string, chars_of, lines, lines_from, range_starts_with, starts_with, string_from_range, strip_cr, trim,
    trim_by, trim_range, CharClass,
};

pub use crate::inbound::server::error_response::ErrorResponse;
pub use crate::inbound::server::handlers::backend::create_file::{CreateFileRequest, FileResponse};
pub use crate::inbound::server::handlers::backend::update_file::UpdateFileRequest;

verus! {

// ───────────────────────── titles ─────────────────────────

/// The fence line that opens and closes YAML front matter.
pub open spec fn fence() -> Seq<char> {
    seq!['-', '-', '-']
}

/// The key of the front-matter title entry.
pub open spec fn title_key() -> Seq<char> {
    seq!['t', 'i', 't', 'l', 'e', ':']
}

/// The marker of a first-level markdown heading.
pub open spec fn heading_marker() -> Seq<char> {
    seq!['#', ' ']
}

/// Whether a line, trimmed, is the front-matter fence.
pub open spec fn is_fence(line: Seq<char>) -> bool {
    trim(line) == fence()
}

/// Whether a line holds only whitespace.
pub open spec fn is_blank_line(line: Seq<char>) -> bool {
    trim(line).len() == 0
}

/// A front-matter title value with its quotes and surrounding whitespace
/// removed.
pub open spec fn clean_title(value: Seq<char>) -> Seq<char> {
    trim(
        trim_by(
            trim_by(trim(value), CharClass::Exactly('"')),
            CharClass::Exactly('\''),
        ),
    )
}

/// The non-empty title of a `title:` front-matter line, if it is one.
pub open spec fn front_matter_title(line: Seq<char>) -> Option<Seq<char>> {
    let t = trim(line);
    if starts_with(t, title_key()) && clean_title(t.skip(6)).len() > 0 {
        Some(clean_title(t.skip(6)))
    } else {
        None
    }
}

/// The non-empty title of a `# ` heading line, if it is one.
pub open spec fn heading_title(line: Seq<char>) -> Option<Seq<char>> {
    let t = trim(line);
    if starts_with(t, heading_marker()) && trim(t.skip(2)).len() > 0 {
        Some(trim(t.skip(2)))
    } else {
        None
    }
}

/// The first non-blank line at or after `from`, or `ls.len()`.
pub open spec fn first_non_blank(ls: Seq<Seq<char>>, from: int) -> int
    decreases ls.len() - from,
{
    if from >= ls.len() {
        ls.len() as int
    } else if !is_blank_line(ls[from]) {
        from
    } else {
        first_non_blank(ls, from + 1)
    }
}

/// The first line at or after `from` that closes the front matter or gives
/// it a title, or `ls.len()`.
pub open spec fn first_fence_or_title(ls: Seq<Seq<char>>, from: int) -> int
    decreases ls.len() - from,
{
    if from >= ls.len() {
        ls.len() as int
    } else if is_fence(ls[from]) || front_matter_title(ls[from]) is Some {
        from
    } else {
        first_fence_or_title(ls, from + 1)
    }
}

/// The title of a markdown text, given its lines. Blank lines before the
/// first other line are skipped. If that line is the fence `---`, the
/// title is the first non-empty `title:` entry before the closing fence;
/// without one, and if the front matter is closed, the first non-blank line
/// after it decides. The deciding line gives a title when it is a `# `
/// heading with non-blank text.
pub open spec fn title_of_lines(ls: Seq<Seq<char>>) -> Option<Seq<char>> {
    let k = first_non_blank(ls, 0);
    if k >= ls.len() {
        None
    } else if !is_fence(ls[k]) {
        heading_title(ls[k])
    } else {
        let j = first_fence_or_title(ls, k + 1);
        if j >= ls.len() {
            None
        } else if !is_fence(ls[j]) {
            front_matter_title(ls[j])
        } else {
            let m = first_non_blank(ls, j + 1);
            if m >= ls.len() {
                None
            } else {
                heading_title(ls[m])
            }
        }
    }
}

/// The title of a markdown text: a front-matter `title:` or its first
/// `# ` heading.
pub open spec fn title_of(content: Seq<char>) -> Option<Seq<char>> {
    title_of_lines(lines(content))
}

/// The title that the line `v[lo..hi]` gives as a `title:` entry.
fn front_matter_title_at(v: &Vec<char>, lo: usize, hi: usize) -> (r: Option<String>)
    requires
        lo <= hi <= v.len(),
    ensures
        r matches Some(s) ==> front_matter_title(v@.subrange(lo as int, hi as int)) == Some(s@),
        r is None ==> front_matter_title(v@.subrange(lo as int, hi as int)) is None,
{
    let key = vec!['t', 'i', 't', 'l', 'e', ':'];
    assert(key@ =~= title_key());
    let (a, b) = trim_range(v, lo, hi, CharClass::Whitespace);
    let ghost t = v@.subrange(a as int, b as int);
    if !range_starts_with(v, a, b, &key) {
        return None;
    }
    assert(t.skip(6) =~= v@.subrange(a + 6, b as int));
    let (c1, d1) = trim_range(v, a + 6, b, CharClass::Whitespace);
    let (c2, d2) = trim_range(v, c1, d1, CharClass::Exactly('"'));
    let (c3, d3) = trim_range(v, c2, d2, CharClass::Exactly('\''));
    let (c4, d4) = trim_range(v, c3, d3, CharClass::Whitespace);
    if c4 < d4 {
        Some(string_from_range(v, c4, d4))
    } else {
        None
    }
}

/// The title that the line `v[lo..hi]` gives as a `# ` heading.
fn heading_title_at(v: &Vec<char>, lo: usize, hi: usize) -> (r: Option<String>)
    requires
        lo <= hi <= v.len(),
    ensures
        r matches Some(s) ==> heading_title(v@.subrange(lo as int, hi as int)) == Some(s@),
        r is None ==> heading_title(v@.subrange(lo as int, hi as int)) is None,
{
    let marker = vec!['#', ' '];
    assert(marker@ =~= heading_marker());
    let (a, b) = trim_range(v, lo, hi, CharClass::Whitespace);
    let ghost t = v@.subrange(a as int, b as int);
    if !range_starts_with(v, a, b, &marker) {
        return None;
    }
    assert(t.skip(2) =~= v@.subrange(a + 2, b as int));
    let (c, d) = trim_range(v, a + 2, b, CharClass::Whitespace);
    if c < d {
        Some(string_from_range(v, c, d))
    } else {
        None
    }
}

/// Extracts the title of a markdown text: the first non-empty `title:`
/// entry of a leading YAML front matter, or else its first `# ` heading
/// (see `title_of_lines`).
pub fn extract_title(content: &str) -> (r: Option<String>)
    ensures
        r matches Some(s) ==> title_of(content@) == Some(s@),
        r is None ==> title_of(content@) is None,
{
    let v = chars_of(content);
    let ghost ls = lines(v@);
    let mut start: usize = 0;
    let ghost mut n: int = 0;
    let ghost mut k: int = 0;
    let ghost mut j: int = 0;
    let mut in_front_matter = false;
    let mut past_front_matter = false;
    assert(ls.skip(0) =~= ls);
    while start < v.len()
        invariant
            v@ == content@,
            ls == lines(v@),
            start <= v.len(),
            0 <= n <= ls.len(),
            lines_from(v@, start as int, start as int) == ls.skip(n),
            !(in_front_matter && past_front_matter),
            !in_front_matter && !past_front_matter ==> first_non_blank(ls, 0) == first_non_blank(
                ls,
                n,
            ),
            in_front_matter ==> {
                &&& 0 <= k < n
                &&& first_non_blank(ls, 0) == k
                &&& is_fence(ls[k])
                &&& first_fence_or_title(ls, k + 1) == first_fence_or_title(ls, n)
            },
            past_front_matter ==> {
                &&& 0 <= k < j < n
                &&& first_non_blank(ls, 0) == k
                &&& is_fence(ls[k])
                &&& first_fence_or_title(ls, k + 1) == j
                &&& is_fence(ls[j])
                &&& first_non_blank(ls, j + 1) == first_non_blank(ls, n)
            },
        decreases v.len() - start,
    {
        let mut e = start;
        while e < v.len() && v[e] != '\n'
            invariant
                start <= e <= v.len(),
                lines_from(v@, start as int, start as int) == lines_from(v@, start as int, e as int),
            decreases v.len() - e,
        {
            e = e + 1;
        }
        let mut hi = e;
        let next: usize;
        if e < v.len() {
            if hi > start && v[hi - 1] == '\r' {
                hi = hi - 1;
            }
            next = e + 1;
        } else {
            next = e;
        }
        proof {
            let line = v@.subrange(start as int, hi as int);
            if e < v.len() {
                let raw = v@.subrange(start as int, e as int);
                if hi < e {
                    assert(raw.drop_last() =~= line);
                }
                assert(strip_cr(raw) == line);
                assert(lines_from(v@, start as int, e as int) == seq![line] + lines_from(
                    v@,
                    next as int,
                    next as int,
                ));
            } else {
                assert(lines_from(v@, next as int, next as int) =~= Seq::<Seq<char>>::empty());
                assert(lines_from(v@, start as int, e as int) =~= seq![line] + lines_from(
                    v@,
                    next as int,
                    next as int,
                ));
            }
            assert(ls.skip(n).len() > 0);
            assert(ls.skip(n)[0] == ls[n]);
            assert(ls.skip(n).drop_first() =~= ls.skip(n + 1));
            assert(ls[n] == line);
            assert(ls.skip(n + 1) == lines_from(v@, next as int, next as int));
        }
        let (a, b) = trim_range(&v, start, hi, CharClass::Whitespace);
        let fence_line = b - a == 3 && v[a] == '-' && v[a + 1] == '-' && v[a + 2] == '-';
        proof {
            let t = v@.subrange(a as int, b as int);
            if fence_line {
                assert(t =~= fence());
            } else if t == fence() {
                assert(t[0] == '-' && t[1] == '-' && t[2] == '-');
            }
            assert(fence_line == is_fence(ls[n]));
            assert((a == b) == is_blank_line(ls[n]));
        }
        if fence_line && !in_front_matter && !past_front_matter {
            in_front_matter = true;
            proof {
                k = n;
            }
        } else if fence_line && in_front_matter {
            in_front_matter = false;
            past_front_matter = true;
            proof {
                j = n;
            }
        } else if in_front_matter {
            let t = front_matter_title_at(&v, start, hi);
            if t.is_some() {
                return t;
            }
        } else if a == b {
        } else {
            return heading_title_at(&v, start, hi);
        }
        start = next;
        proof {
            n = n + 1;
        }
    }
    proof {
        assert(lines_from(v@, start as int, start as int) =~= Seq::<Seq<char>>::empty());
        assert(ls.skip(n).len() == 0);
    }
    None
}

/// A title, when a text has one, is not empty and has no surrounding
/// whitespace.
pub proof fn law_title_is_trimmed_text(content: Seq<char>)
    ensures
        title_of(content) matches Some(t) ==> t.len() > 0 && trim(t) == t,
{
    let ls = lines(content);
    if let Some(t) = title_of(content) {
        let k = first_non_blank(ls, 0);
        let j = first_fence_or_title(ls, k + 1);
        let m = first_non_blank(ls, j + 1);
        let line = if !is_fence(ls[k]) {
            ls[k]
        } else if !is_fence(ls[j]) {
            ls[j]
        } else {
            ls[m]
        };
        let tl = trim(line);
        lemma_trim_idempotent(tl.skip(2), CharClass::Whitespace);
        lemma_trim_idempotent(
            trim_by(trim_by(trim(tl.skip(6)), CharClass::Exactly('"')), CharClass::Exactly('\'')),
            CharClass::Whitespace,
        );
    }
}

// ───────────────────────── listing ─────────────────────────

/// The JSON answer that describes a stored file in a listing, with the
/// title of a markdown file when it has one.
#[derive(Debug)]
pub struct MetadataResponse {
    pub id: String,
    pub name: String,
    pub ext: String,
    pub tags: Vec<String>,
    pub size: u64,
    pub mime: String,
    pub created_at: String,
    pub modified_at: String,
    pub title: Option<String>,
}

impl MetadataResponse {
    /// Whether `r` describes the metadata `m` (its title aside).
    pub open spec fn describes(r: MetadataResponse, m: Metadata) -> bool {
        &&& r.id@ == id_text(m.id)
        &&& r.name == m.name
        &&& r.ext == m.ext
        &&& r.tags == m.tags
        &&& r.size == m.size
        &&& r.mime == m.mime
        &&& r.created_at == m.created_at
        &&& r.modified_at == m.modified_at
    }

    /// The answer that describes a file's metadata, without a title.
    pub fn from_metadata(m: Metadata) -> (r: Self)
        ensures
            Self::describes(r, m),
            r.title is None,
    {
        MetadataResponse {
            id: uuid_to_string(m.id),
            name: m.name,
            ext: m.ext,
            tags: m.tags,
            size: m.size,
            mime: m.mime,
            created_at: m.created_at,
            modified_at: m.modified_at,
            title: None,
        }
    }
}

/// Whether a file is a markdown file, whose listing shows a title: its
/// extension is exactly `md`.
pub open spec fn is_markdown(m: Metadata) -> bool {
    m.ext@ == seq!['m', 'd']
}

/// Whether a listed file gets a title, so that its content must be read.
pub fn wants_title(m: &Metadata) -> (r: bool)
    ensures
        r == is_markdown(*m),
{
    proof {
        reveal_strlit("md");
        assert("md"@ =~= seq!['m', 'd']);
    }
    str_equals(m.ext.as_str(), "md")
}

/// The title that a listing shows for a file whose content, if it could be
/// read, is `bytes`: a markdown file with UTF-8 content shows its
/// `title_of`; other files show none.
pub open spec fn listed_title(m: Metadata, bytes: Option<Vec<u8>>) -> Option<Seq<char>> {
    if is_markdown(m) && bytes is Some && vstd::utf8::valid_utf8(bytes->0@) {
        title_of(vstd::utf8::decode_utf8(bytes->0@))
    } else {
        None
    }
}

/// The listing entry of a file, given its content when it could be read.
pub fn listing_entry(m: Metadata, bytes: Option<Vec<u8>>) -> (r: MetadataResponse)
    ensures
        MetadataResponse::describes(r, m),
        r.title is None <==> listed_title(m, bytes) is None,
        r.title matches Some(t) ==> listed_title(m, bytes) == Some(t@),
{
    let title = if wants_title(&m) {
        match bytes {
            Some(b) => match utf8_to_string(b) {
                Some(c) => extract_title(c.as_str()),
                None => None,
            },
            None => None,
        }
    } else {
        None
    };
    let mut resp = MetadataResponse::from_metadata(m);
    resp.title = title;
    resp
}

/// Whether a listing entry's title is the one `listed_title` gives.
pub open spec fn title_agrees(title: Option<String>, listed: Option<Seq<char>>) -> bool {
    match title {
        Some(t) => listed == Some(t@),
        None => listed is None,
    }
}

/// The bytes that an outcome of `read_file_bytes` gives, if it succeeded.
pub open spec fn bytes_of(o: Result<(Metadata, Vec<u8>), FileManagerError>) -> Option<Vec<u8>> {
    match o {
        Ok(p) => Some(p.1),
        Err(_) => None,
    }
}

/// Whether `e` is the titled listing entry of `m`: it describes `m`; a
/// markdown file's title is the one its content gives, the content being
/// an outcome of reading the file's bytes through `fm`; other files have
/// no title.
pub open spec fn titled_entry(fm: FileManagerLogic, e: MetadataResponse, m: Metadata) -> bool {
    &&& MetadataResponse::describes(e, m)
    &&& !is_markdown(m) ==> e.title is None
    &&& is_markdown(m) ==> exists|o: Result<(Metadata, Vec<u8>), FileManagerError>|
        #[trigger] fm.adapter_reads_bytes(m.id, o) && title_agrees(e.title, listed_title(m, bytes_of(o)))
}

/// The listing with titles: every stored file that `fm` lists, in order,
/// each described with the title of its content when it is a markdown
/// file. A failed listing gives its error back.
pub fn titled_listing(fm: &FileManagerLogic) -> (r: Result<Vec<MetadataResponse>, FileManagerError>)
    ensures
        r matches Err(e) ==> fm.adapter_lists(Err(e)),
        r matches Ok(v) ==> exists|files: Vec<Metadata>|
            #[trigger] fm.adapter_lists(Ok(files)) && v@.len() == files@.len() && forall|k: int|
                0 <= k < files@.len() ==> titled_entry(*fm, #[trigger] v@[k], files@[k]),
{
    let files = match fm.list_files() {
        Ok(f) => f,
        Err(e) => {
            return Err(e);
        },
    };
    let ghost all = files;
    let mut out: Vec<MetadataResponse> = Vec::new();
    let ghost mut i: int = 0;
    for m in iter: files
        invariant
            iter.seq() == all@,
            i == iter.index(),
            i <= all@.len(),
            out@.len() == i,
            forall|k: int| 0 <= k < i ==> titled_entry(*fm, #[trigger] out@[k], all@[k]),
    {
        let ghost gm = m;
        let markdown = wants_title(&m);
        let ghost mut seen: Result<(Metadata, Vec<u8>), FileManagerError> = vstd::pervasive::arbitrary();
        let bytes = if markdown {
            let o = fm.read_file_bytes(m.id);
            proof {
                seen = o;
            }
            match o {
                Ok((_, b)) => Some(b),
                Err(_) => None,
            }
        } else {
            None
        };
        proof {
            if markdown {
                assert(bytes == bytes_of(seen));
            }
        }
        let e = listing_entry(m, bytes);
        proof {
            if markdown {
                assert(fm.adapter_reads_bytes(gm.id, seen));
                assert(title_agrees(e.title, listed_title(gm, bytes_of(seen))));
            } else {
                assert(listed_title(gm, bytes) is None);
            }
            assert(titled_entry(*fm, e, gm));
        }
        out.push(e);
        proof {
            i = i + 1;
        }
    }
    Ok(out)
}

} // verus!
