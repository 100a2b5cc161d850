//! The rules of the file-system store: which stored files a query selects,
//! the order of listings, the tag index, and how changes apply to stored
//! metadata. The reading and writing of files is done by the store itself.

use vstd::prelude::*;

use crate::domain::services::file_manager::FileManagerError;
use crate::domain::types::file::{
    file::{File, NewFile, UpdateFile},
    file_id::{id_text, law_id_text_is_injective, uuid_to_string},
    file_metadata::{Metadata, UpdateMetadata},
    file_query::FileQuery,
    timestamp::{parse_rfc3339_nanos, rfc3339_nanos},
};
use crate::text::{
    lemma_lex_asymmetric, lemma_lex_irreflexive, lemma_lex_total, lemma_lex_transitive, lex_lt,
    str_less, views, contains_text, eq_ignore_ascii_case, str_contains, str_eq_ignore_ascii_case,
    str_equals, to_lowercase, unicode_lowercase,
};

verus! {

// ───────────────────────── layout ─────────────────────────

/// The name of the file that holds a file's content: `{id}.{ext}`.
pub fn content_file_name(id: u128, ext: &str) -> (s: String)
    ensures
        s@ == id_text(id) + "."@ + ext@,
{
    let mut s = uuid_to_string(id);
    s.append(".");
    s.append(ext);
    s
}

/// The name of the file that holds a file's metadata: `{id}.json`.
pub fn metadata_file_name(id: u128) -> (s: String)
    ensures
        s@ == id_text(id) + ".json"@,
{
    let mut s = uuid_to_string(id);
    s.append(".json");
    s
}

/// Files of different ids never share a content file or a metadata file.
pub proof fn law_distinct_ids_have_distinct_files(
    a: u128,
    b: u128,
    ext_a: Seq<char>,
    ext_b: Seq<char>,
)
    requires
        a != b,
    ensures
        id_text(a) + "."@ + ext_a != id_text(b) + "."@ + ext_b,
        id_text(a) + ".json"@ != id_text(b) + ".json"@,
{
    law_id_text_is_injective(a, b);
    let na = id_text(a) + "."@ + ext_a;
    let nb = id_text(b) + "."@ + ext_b;
    if na == nb {
        assert(na.take(36) =~= id_text(a));
        assert(nb.take(36) =~= id_text(b));
    }
    let ma = id_text(a) + ".json"@;
    let mb = id_text(b) + ".json"@;
    if ma == mb {
        assert(ma.take(36) =~= id_text(a));
        assert(mb.take(36) =~= id_text(b));
    }
}

// ───────────────────────── records ─────────────────────────

/// The size in bytes of a text stored as UTF-8.
pub open spec fn utf8_size(s: Seq<char>) -> int {
    vstd::utf8::encode_utf8(s).len() as int
}

/// The size in bytes of a text content.
pub fn content_size(content: &str) -> (n: u64)
    ensures
        n == utf8_size(content@),
{
    content.as_bytes().len() as u64
}

/// The error for a file whose metadata is missing:
/// `Metadata not found for {id}`.
pub fn metadata_not_found(id: u128) -> (e: FileManagerError)
    ensures
        e matches FileManagerError::FileNotFound(m) && m@ == "Metadata not found for "@ + id_text(id),
{
    let mut m = String::from_str("Metadata not found for ");
    let t = uuid_to_string(id);
    m.append(t.as_str());
    FileManagerError::FileNotFound(m)
}

/// The error for a file whose content is missing: `File not found: {id}`.
pub fn content_not_found(id: u128) -> (e: FileManagerError)
    ensures
        e matches FileManagerError::FileNotFound(m) && m@ == "File not found: "@ + id_text(id),
{
    let mut m = String::from_str("File not found: ");
    let t = uuid_to_string(id);
    m.append(t.as_str());
    FileManagerError::FileNotFound(m)
}

/// The record of a text file created now with the given id: its content
/// (empty if none was given), its size in bytes, and its metadata with
/// both timestamps set to `now`.
pub fn new_file_record(id: u128, new_file: NewFile, now: String) -> (f: File)
    ensures
        f.id == id,
        f.content@ == (match new_file.content {
            Some(c) => c@,
            None => Seq::<char>::empty(),
        }),
        f.metadata.id == id,
        f.metadata.name == new_file.metadata.name,
        f.metadata.ext == new_file.metadata.ext,
        f.metadata.tags == new_file.metadata.tags,
        f.metadata.mime == new_file.metadata.mime,
        f.metadata.size == utf8_size(f.content@),
        f.metadata.created_at == now,
        f.metadata.modified_at == now,
{
    let content = match new_file.content {
        Some(c) => c,
        None => String::new(),
    };
    let size = content_size(content.as_str());
    let metadata = Metadata {
        id,
        name: new_file.metadata.name,
        ext: new_file.metadata.ext,
        tags: new_file.metadata.tags,
        size,
        mime: new_file.metadata.mime,
        created_at: now.clone(),
        modified_at: now,
    };
    File { id, metadata, content }
}

/// The metadata of an uploaded file created now with the given id: its
/// size is the number of bytes uploaded, and both timestamps are `now`.
pub fn new_upload_record(
    id: u128,
    name: String,
    ext: String,
    mime: String,
    tags: Vec<String>,
    data: &Vec<u8>,
    now: String,
) -> (m: Metadata)
    ensures
        m == (Metadata {
            id,
            name,
            ext,
            tags,
            size: data@.len() as u64,
            mime,
            created_at: now,
            modified_at: now,
        }),
{
    let size = data.len() as u64;
    Metadata { id, name, ext, tags, size, mime, created_at: now.clone(), modified_at: now }
}

/// Metadata with the given changes applied: each field that the change
/// gives replaces the stored one; the others stay.
pub open spec fn updated_metadata(m: Metadata, update: Option<UpdateMetadata>) -> Metadata {
    match update {
        None => m,
        Some(u) => Metadata {
            name: match u.name {
                Some(n) => n,
                None => m.name,
            },
            ext: match u.ext {
                Some(e) => e,
                None => m.ext,
            },
            tags: match u.tags {
                Some(t) => t,
                None => m.tags,
            },
            mime: match u.mime {
                Some(x) => x,
                None => m.mime,
            },
            ..m
        },
    }
}

/// Metadata with the given changes applied.
pub fn apply_update(metadata: Metadata, update: Option<UpdateMetadata>) -> (r: Metadata)
    ensures
        r == updated_metadata(metadata, update),
{
    let mut metadata = metadata;
    if let Some(meta_update) = update {
        if let Some(name) = meta_update.name {
            metadata.name = name;
        }
        if let Some(ext) = meta_update.ext {
            metadata.ext = ext;
        }
        if let Some(tags) = meta_update.tags {
            metadata.tags = tags;
        }
        if let Some(mime) = meta_update.mime {
            metadata.mime = mime;
        }
    }
    metadata
}

/// How the stored files of a file change when it is updated.
pub struct UpdatePlan {
    /// The metadata to store.
    pub metadata: Metadata,
    /// The name of the file that holds the content after the update.
    pub content_file: String,
    /// The content to write there, when the update gives one; otherwise the
    /// content stays and is read back from there.
    pub new_content: Option<String>,
    /// The former content file, when the extension changed: it is removed
    /// after new content is written, or else renamed to `content_file`.
    pub old_content_file: Option<String>,
}

/// The metadata stored after an update made at time `now`: the changes
/// applied, the size of the new content when there is one, and `now` as
/// the modification time.
pub open spec fn metadata_after_update(stored: Metadata, update: UpdateFile, now: String) -> Metadata {
    Metadata {
        size: match update.content {
            Some(c) => utf8_size(c@) as u64,
            None => stored.size,
        },
        modified_at: now,
        ..updated_metadata(stored, update.metadata)
    }
}

/// Plans the update of the stored file `id` whose metadata is `stored`,
/// made at time `now`.
pub fn plan_update(id: u128, stored: Metadata, update: UpdateFile, now: String) -> (p: UpdatePlan)
    ensures
        p.metadata == metadata_after_update(stored, update, now),
        p.content_file@ == id_text(id) + "."@ + p.metadata.ext@,
        p.new_content == update.content,
        p.old_content_file is Some <==> stored.ext@ != p.metadata.ext@,
        p.old_content_file matches Some(f) ==> f@ == id_text(id) + "."@ + stored.ext@,
{
    let old_ext = stored.ext.clone();
    let mut metadata = apply_update(stored, update.metadata);
    if let Some(c) = &update.content {
        metadata.size = content_size(c.as_str());
    }
    metadata.modified_at = now;
    let content_file = content_file_name(id, metadata.ext.as_str());
    let old_content_file = if str_equals(old_ext.as_str(), metadata.ext.as_str()) {
        None
    } else {
        Some(content_file_name(id, old_ext.as_str()))
    };
    UpdatePlan { metadata, content_file, new_content: update.content, old_content_file }
}

// ───────────────────────── queries ─────────────────────────

/// Whether `tags` holds a tag equal to `wanted` ignoring ASCII case.
pub open spec fn has_tag(tags: Seq<String>, wanted: Seq<char>) -> bool {
    exists|j: int| 0 <= j < tags.len() && eq_ignore_ascii_case(#[trigger] tags[j]@, wanted)
}

/// Whether a stored file passes the metadata filters of a query: the
/// extension (ignoring ASCII case), a name substring (ignoring case), the
/// size bounds (inclusive), the tags, each of which the file must carry
/// (ignoring ASCII case), and the modification-time bounds (inclusive),
/// which only a file whose stored time reads as an RFC 3339 instant can
/// pass. The content filter is `content_accepts`.
pub open spec fn query_accepts(q: FileQuery, m: Metadata) -> bool {
    &&& (q.extension matches Some(e) ==> eq_ignore_ascii_case(m.ext@, e@))
    &&& (q.name_contains matches Some(n) ==> contains_text(
        unicode_lowercase(m.name@),
        unicode_lowercase(n@),
    ))
    &&& (q.size_greater_than matches Some(min) ==> m.size >= min)
    &&& (q.size_smaller_than matches Some(max) ==> m.size <= max)
    &&& (q.tags matches Some(ts) ==> forall|i: int|
        0 <= i < ts@.len() ==> has_tag(m.tags@, #[trigger] ts@[i]@))
    &&& (q.modified_after matches Some(t) ==> (rfc3339_nanos(m.modified_at@) matches Some(n) && n
        >= t))
    &&& (q.modified_before matches Some(t) ==> (rfc3339_nanos(m.modified_at@) matches Some(n) && n
        <= t))
}

/// `query_accepts` as a predicate on stored files.
pub open spec fn accepted_by(q: FileQuery) -> spec_fn(Metadata) -> bool {
    |m: Metadata| query_accepts(q, m)
}

/// Whether `tags` holds a tag equal to `wanted` ignoring ASCII case.
fn carries_tag(tags: &Vec<String>, wanted: &String) -> (r: bool)
    ensures
        r == has_tag(tags@, wanted@),
{
    let mut j: usize = 0;
    while j < tags.len()
        invariant
            j <= tags.len(),
            forall|k: int| 0 <= k < j ==> !eq_ignore_ascii_case(#[trigger] tags@[k]@, wanted@),
        decreases tags.len() - j,
    {
        if str_eq_ignore_ascii_case(tags[j].as_str(), wanted.as_str()) {
            return true;
        }
        j = j + 1;
    }
    false
}

/// Whether a stored file passes the metadata filters of a query.
pub fn matches_query(m: &Metadata, q: &FileQuery) -> (r: bool)
    ensures
        r == query_accepts(*q, *m),
{
    if let Some(ext) = &q.extension {
        if !str_eq_ignore_ascii_case(m.ext.as_str(), ext.as_str()) {
            return false;
        }
    }
    if let Some(name) = &q.name_contains {
        let hay = to_lowercase(m.name.as_str());
        let needle = to_lowercase(name.as_str());
        if !str_contains(hay.as_str(), needle.as_str()) {
            return false;
        }
    }
    if let Some(min) = q.size_greater_than {
        if m.size < min {
            return false;
        }
    }
    if let Some(max) = q.size_smaller_than {
        if m.size > max {
            return false;
        }
    }
    if q.modified_after.is_some() || q.modified_before.is_some() {
        let modified = parse_rfc3339_nanos(m.modified_at.as_str());
        match modified {
            Some(n) => {
                if let Some(t) = q.modified_after {
                    if (n as i128) < t {
                        return false;
                    }
                }
                if let Some(t) = q.modified_before {
                    if (n as i128) > t {
                        return false;
                    }
                }
            },
            None => {
                return false;
            },
        }
    }
    if let Some(tags) = &q.tags {
        let mut i: usize = 0;
        while i < tags.len()
            invariant
                q.tags == Some(*tags),
                i <= tags.len(),
                forall|k: int| 0 <= k < i ==> has_tag(m.tags@, #[trigger] tags@[k]@),
            decreases tags.len() - i,
        {
            if !carries_tag(&m.tags, &tags[i]) {
                assert(!has_tag(m.tags@, tags@[i as int]@));
                assert(q.tags->0 == *tags);
                assert(!has_tag(m.tags@, (q.tags->0)@[i as int]@));
                assert(!query_accepts(*q, *m));
                return false;
            }
            i = i + 1;
        }
    }
    true
}

/// The stored files that pass the metadata filters of a query, in their
/// listing order.
pub fn filter_by_query(all: Vec<Metadata>, q: &FileQuery) -> (r: Vec<Metadata>)
    ensures
        r@ == all@.filter(accepted_by(*q)),
{
    let ghost pred = accepted_by(*q);
    let mut r: Vec<Metadata> = Vec::new();
    let ghost mut i: int = 0;
    for m in iter: all
        invariant
            iter.seq() == all@,
            pred == accepted_by(*q),
            i == iter.index(),
            i <= all@.len(),
            r@ == all@.take(i).filter(pred),
    {
        proof {
            assert(all@.take(i + 1) =~= all@.take(i).push(m));
            all@.take(i).lemma_filter_push(m, pred);
        }
        let keep = matches_query(&m, q);
        if keep {
            r.push(m);
        }
        assert(r@ == all@.take(i + 1).filter(pred));
        proof {
            i = i + 1;
        }
    }
    proof {
        assert(all@.take(all@.len() as int) =~= all@);
    }
    r
}

/// Whether a file's content, if it could be read, holds the search term
/// ignoring case.
pub open spec fn content_accepts(content: Option<String>, term: Seq<char>) -> bool {
    content matches Some(c) && contains_text(unicode_lowercase(c@), unicode_lowercase(term))
}

/// The files whose content (`contents[i]` for `files[i]`, `None` when it
/// could not be read) holds the term, in order.
pub open spec fn selected_by_content(
    files: Seq<Metadata>,
    contents: Seq<Option<String>>,
    term: Seq<char>,
) -> Seq<Metadata>
    decreases files.len(),
{
    if files.len() == 0 || contents.len() == 0 {
        Seq::empty()
    } else {
        let earlier = selected_by_content(files.drop_last(), contents.drop_last(), term);
        if content_accepts(contents.last(), term) {
            earlier.push(files.last())
        } else {
            earlier
        }
    }
}

/// Keeps the files whose content holds the search term ignoring case;
/// `contents[i]` is the content of `files[i]`, or `None` when it could not
/// be read.
pub fn select_by_content(files: Vec<Metadata>, contents: &Vec<Option<String>>, term: &str) -> (r:
    Vec<Metadata>)
    requires
        files.len() == contents.len(),
    ensures
        r@ == selected_by_content(files@, contents@, term@),
{
    let needle = to_lowercase(term);
    assert(files@.len() == files.len());
    let mut r: Vec<Metadata> = Vec::new();
    let mut i: usize = 0;
    for m in iter: files
        invariant
            iter.seq() == files@,
            files@.len() == contents@.len(),
            needle@ == unicode_lowercase(term@),
            i == iter.index(),
            i <= files@.len(),
            files@.len() <= usize::MAX,
            r@ == selected_by_content(
                files@.take(iter.index() as int),
                contents@.take(iter.index() as int),
                term@,
            ),
    {
        assert(i < files@.len());
        proof {
            assert(files@.take(i + 1).drop_last() =~= files@.take(i as int));
            assert(contents@.take(i + 1).drop_last() =~= contents@.take(i as int));
        }
        let keep = match &contents[i] {
            Some(c) => {
                let hay = to_lowercase(c.as_str());
                str_contains(hay.as_str(), needle.as_str())
            },
            None => false,
        };
        if keep {
            r.push(m);
        }
        i = i + 1;
    }
    proof {
        assert(files@.take(files@.len() as int) =~= files@);
        assert(contents@.take(contents@.len() as int) =~= contents@);
    }
    r
}

// ───────────────────────── listing order ─────────────────────────

/// Whether a file was modified at the time `key`.
pub open spec fn modified_at_is(key: Seq<char>) -> spec_fn(Metadata) -> bool {
    |m: Metadata| m.modified_at@ == key
}

/// The files of a listing whose modification time is `key`, in order.
pub open spec fn with_modified(files: Seq<Metadata>, key: Seq<char>) -> Seq<Metadata> {
    files.filter(modified_at_is(key))
}

/// Whether a listing is ordered newest first: no file is followed by one
/// modified later (by the text order of the timestamps).
pub open spec fn newest_first(files: Seq<Metadata>) -> bool {
    forall|i: int, j: int|
        0 <= i < j < files.len() ==> !lex_lt(#[trigger] files[i].modified_at@, #[trigger] files[j].modified_at@)
}

/// Inserting `m` where every later file is older keeps the files of other
/// times as they were and adds `m` last among the files of its own time.
proof fn lemma_insert_groups(r: Seq<Metadata>, p: int, m: Metadata, key: Seq<char>)
    requires
        0 <= p <= r.len(),
        forall|q: int| p <= q < r.len() ==> lex_lt(#[trigger] r[q].modified_at@, m.modified_at@),
    ensures
        with_modified(r.insert(p, m), key) == if key == m.modified_at@ {
            with_modified(r, key).push(m)
        } else {
            with_modified(r, key)
        },
{
    let pred = modified_at_is(key);
    let a = r.take(p);
    let b = r.skip(p);
    assert(r =~= a + b);
    assert(r.insert(p, m) =~= a + (seq![m] + b));
    Seq::filter_distributes_over_add(a, b, pred);
    Seq::filter_distributes_over_add(a, seq![m] + b, pred);
    Seq::filter_distributes_over_add(seq![m], b, pred);
    assert(seq![m].filter(pred) =~= if pred(m) { seq![m] } else { Seq::empty() }) by {
        Seq::<Metadata>::empty().lemma_filter_push(m, pred);
        assert(Seq::<Metadata>::empty().push(m) =~= seq![m]);
        reveal(Seq::filter);
        assert(Seq::<Metadata>::empty().filter(pred) =~= Seq::<Metadata>::empty());
    }
    if key == m.modified_at@ {
        assert forall|q: int| 0 <= q < b.len() implies !pred(#[trigger] b[q]) by {
            lemma_lex_irreflexive(m.modified_at@);
            assert(lex_lt(r[p + q].modified_at@, m.modified_at@));
        }
        assert(b.all(|x: Metadata| !pred(x)));
        b.lemma_all_neg_filter_empty(pred);
        assert(b.filter(pred) =~= Seq::<Metadata>::empty());
        assert(a.filter(pred) + (seq![m] + b.filter(pred)) =~= (a.filter(pred) + b.filter(pred)).push(m));
    } else {
        assert(a.filter(pred) + (Seq::<Metadata>::empty() + b.filter(pred)) =~= a.filter(pred) + b.filter(pred));
    }
}

/// Orders a listing newest first by modification time. The sort is
/// stable: files with the same modification time keep their order.
pub fn sort_newest_first(files: Vec<Metadata>) -> (r: Vec<Metadata>)
    ensures
        newest_first(r@),
        forall|key: Seq<char>| #[trigger] with_modified(r@, key) == with_modified(files@, key),
{
    let mut r: Vec<Metadata> = Vec::new();
    let ghost mut i: int = 0;
    proof {
        assert forall|key: Seq<char>| #[trigger] with_modified(r@, key) == with_modified(files@.take(0), key) by {
            assert(files@.take(0) =~= r@);
        }
    }
    for m in iter: files
        invariant
            iter.seq() == files@,
            i == iter.index(),
            i <= files@.len(),
            newest_first(r@),
            forall|key: Seq<char>| #[trigger] with_modified(r@, key) == with_modified(files@.take(i), key),
    {
        let mut p: usize = 0;
        while p < r.len() && !str_less(r[p].modified_at.as_str(), m.modified_at.as_str())
            invariant
                p <= r.len(),
                forall|q: int| 0 <= q < p ==> !lex_lt(#[trigger] r@[q].modified_at@, m.modified_at@),
            decreases r.len() - p,
        {
            p = p + 1;
        }
        proof {
            assert forall|q: int| p <= q < r@.len() implies lex_lt(#[trigger] r@[q].modified_at@, m.modified_at@) by {
                if q > p {
                    lemma_lex_total(r@[q].modified_at@, r@[p as int].modified_at@);
                    if lex_lt(r@[q].modified_at@, r@[p as int].modified_at@) {
                        lemma_lex_transitive(r@[q].modified_at@, r@[p as int].modified_at@, m.modified_at@);
                    }
                }
            }
            assert(files@.take(i + 1) =~= files@.take(i).push(m));
            assert forall|key: Seq<char>| #[trigger] with_modified(r@.insert(p as int, m), key) == with_modified(files@.take(i + 1), key) by {
                lemma_insert_groups(r@, p as int, m, key);
                files@.take(i).lemma_filter_push(m, modified_at_is(key));
            }
            let ghost nr = r@.insert(p as int, m);
            assert forall|x: int, y: int| 0 <= x < y < nr.len() implies !lex_lt(#[trigger] nr[x].modified_at@, #[trigger] nr[y].modified_at@) by {
                if y == p {
                } else if x == p {
                    lemma_lex_asymmetric(r@[y - 1].modified_at@, m.modified_at@);
                } else if x < p && y > p {
                    assert(!lex_lt(r@[x].modified_at@, r@[y - 1].modified_at@));
                } else if x > p {
                    assert(!lex_lt(r@[x - 1].modified_at@, r@[y - 1].modified_at@));
                } else {
                    assert(!lex_lt(r@[x].modified_at@, r@[y].modified_at@));
                }
            }
        }
        r.insert(p, m);
        proof {
            i = i + 1;
        }
    }
    proof {
        assert(files@.take(files@.len() as int) =~= files@);
    }
    r
}

// ───────────────────────── tag index ─────────────────────────

/// Whether a list of texts is in strictly increasing `String` order, and so
/// holds no text twice.
pub open spec fn strictly_increasing(items: Seq<Seq<char>>) -> bool {
    forall|i: int, j: int| 0 <= i < j < items.len() ==> lex_lt(#[trigger] items[i], #[trigger] items[j])
}

/// Whether some file of the listing carries the tag `t`.
pub open spec fn tagged_somewhere(files: Seq<Metadata>, t: Seq<char>) -> bool {
    exists|f: int, j: int| 0 <= f < files.len() && 0 <= j < files[f].tags@.len() && #[trigger] files[f].tags@[j]@ == t
}

/// Adds a tag to an increasing list of tags unless it is there already.
fn insert_tag(r: &mut Vec<String>, t: &String)
    requires
        strictly_increasing(views(old(r)@)),
    ensures
        strictly_increasing(views(final(r)@)),
        forall|x: Seq<char>| #[trigger] views(final(r)@).contains(x) <==> (views(old(r)@).contains(x) || x == t@),
{
    let mut p: usize = 0;
    while p < r.len() && str_less(r[p].as_str(), t.as_str())
        invariant
            p <= r.len(),
            forall|q: int| 0 <= q < p ==> lex_lt(#[trigger] r@[q]@, t@),
        decreases r.len() - p,
    {
        p = p + 1;
    }
    let ghost old_views = views(r@);
    if p < r.len() && r[p] == *t {
        proof {
            assert(old_views[p as int] == t@);
        }
        return;
    }
    proof {
        assert forall|q: int| p <= q < r@.len() implies lex_lt(t@, #[trigger] r@[q]@) by {
            lemma_lex_total(t@, r@[p as int]@);
            if q > p {
                assert(lex_lt(old_views[p as int], old_views[q]));
                lemma_lex_transitive(t@, r@[p as int]@, r@[q]@);
            }
        }
    }
    r.insert(p, t.clone());
    proof {
        let nv = views(r@);
        assert(nv =~= old_views.insert(p as int, t@));
        assert forall|x: int, y: int| 0 <= x < y < nv.len() implies lex_lt(#[trigger] nv[x], #[trigger] nv[y]) by {
            if y == p {
            } else if x == p {
            } else if x < p && y > p {
                assert(lex_lt(old_views[x], old_views[y - 1]));
            } else if x > p {
                assert(lex_lt(old_views[x - 1], old_views[y - 1]));
            } else {
                assert(lex_lt(old_views[x], old_views[y]));
            }
        }
        assert forall|x: Seq<char>| #[trigger] nv.contains(x) <==> (old_views.contains(x) || x == t@) by {
            if nv.contains(x) {
                let w = choose|w: int| 0 <= w < nv.len() && nv[w] == x;
                if w < p {
                    assert(old_views[w] == x);
                } else if w > p {
                    assert(old_views[w - 1] == x);
                }
            }
            if old_views.contains(x) {
                let w = choose|w: int| 0 <= w < old_views.len() && old_views[w] == x;
                if w < p {
                    assert(nv[w] == x);
                } else {
                    assert(nv[w + 1] == x);
                }
            }
            if x == t@ {
                assert(nv[p as int] == x);
            }
        }
    }
}

/// All the tags of a listing, each once, in `String` order.
pub fn collect_tags(files: &Vec<Metadata>) -> (r: Vec<String>)
    ensures
        strictly_increasing(views(r@)),
        forall|t: Seq<char>| #[trigger] views(r@).contains(t) <==> tagged_somewhere(files@, t),
{
    let mut r: Vec<String> = Vec::new();
    let mut f: usize = 0;
    while f < files.len()
        invariant
            f <= files.len(),
            strictly_increasing(views(r@)),
            forall|t: Seq<char>| #[trigger] views(r@).contains(t) <==> tagged_somewhere(files@.take(f as int), t),
        decreases files.len() - f,
    {
        let tags = &files[f].tags;
        let mut k: usize = 0;
        while k < tags.len()
            invariant
                f < files.len(),
                *tags == files@[f as int].tags,
                k <= tags.len(),
                strictly_increasing(views(r@)),
                forall|t: Seq<char>| #[trigger] views(r@).contains(t) <==> (tagged_somewhere(files@.take(f as int), t)
                    || exists|j: int| 0 <= j < k && #[trigger] tags@[j]@ == t),
            decreases tags.len() - k,
        {
            let ghost before = views(r@);
            insert_tag(&mut r, &tags[k]);
            proof {
                assert forall|t: Seq<char>| #[trigger] views(r@).contains(t) <==> (tagged_somewhere(files@.take(f as int), t)
                    || exists|j: int| 0 <= j < k + 1 && #[trigger] tags@[j]@ == t) by {
                    if exists|j: int| 0 <= j < k + 1 && #[trigger] tags@[j]@ == t {
                        let j = choose|j: int| 0 <= j < k + 1 && #[trigger] tags@[j]@ == t;
                        if j < k {
                            assert(before.contains(t));
                        }
                    }
                }
            }
            k = k + 1;
        }
        proof {
            let before = files@.take(f as int);
            let after = files@.take(f + 1);
            assert forall|t: Seq<char>| #[trigger] views(r@).contains(t) <==> tagged_somewhere(after, t) by {
                if tagged_somewhere(after, t) {
                    let (g, j) = choose|g: int, j: int| 0 <= g < after.len() && 0 <= j < after[g].tags@.len() && #[trigger] after[g].tags@[j]@ == t;
                    if g < f {
                        assert(before[g] == after[g]);
                        assert(tagged_somewhere(before, t));
                    } else {
                        assert(tags@[j]@ == t);
                    }
                }
                if tagged_somewhere(before, t) {
                    let (g, j) = choose|g: int, j: int| 0 <= g < before.len() && 0 <= j < before[g].tags@.len() && #[trigger] before[g].tags@[j]@ == t;
                    assert(after[g] == before[g]);
                }
                if exists|j: int| 0 <= j < tags@.len() && #[trigger] tags@[j]@ == t {
                    let j = choose|j: int| 0 <= j < tags@.len() && #[trigger] tags@[j]@ == t;
                    assert(after[f as int].tags@[j]@ == t);
                }
            }
        }
        f = f + 1;
    }
    proof {
        assert(files@.take(files@.len() as int) =~= files@);
    }
    r
}

// ───────────────────────── laws ─────────────────────────

/// A query with no filters set accepts every stored file.
pub proof fn law_empty_query_accepts_every_file(m: Metadata)
    ensures
        query_accepts(FileQuery::empty(), m),
{
}

/// Filtering by a query keeps only files that the query accepts, and every
/// file it keeps was in the listing.
pub proof fn law_query_results_come_from_the_listing(all: Seq<Metadata>, q: FileQuery)
    ensures
        forall|i: int| 0 <= i < all.filter(accepted_by(q)).len() ==> query_accepts(q, #[trigger] all.filter(accepted_by(q))[i]) && all.contains(all.filter(accepted_by(q))[i]),
{
    assert forall|i: int| 0 <= i < all.filter(accepted_by(q)).len() implies query_accepts(q, #[trigger] all.filter(accepted_by(q))[i]) && all.contains(all.filter(accepted_by(q))[i]) by {
        let f = all.filter(accepted_by(q));
        all.lemma_filter_pred(accepted_by(q), i);
        assert(f.contains(f[i]));
        all.lemma_filter_contains_rev(accepted_by(q), f[i]);
    }
}

/// Keeping the files of one modification time keeps every copy of a file
/// of that time.
proof fn lemma_group_count(s: Seq<Metadata>, x: Metadata)
    ensures
        with_modified(s, x.modified_at@).to_multiset().count(x) == s.to_multiset().count(x),
    decreases s.len(),
{
    broadcast use vstd::seq_lib::group_to_multiset_ensures;

    if s.len() > 0 {
        let p = modified_at_is(x.modified_at@);
        lemma_group_count(s.drop_last(), x);
        assert(s =~= s.drop_last().push(s.last()));
        s.drop_last().lemma_filter_push(s.last(), p);
    } else {
        reveal(Seq::filter);
    }
}

/// Two listings with the same files at every modification time hold the
/// same files.
pub proof fn law_same_groups_same_files(a: Seq<Metadata>, b: Seq<Metadata>)
    requires
        forall|key: Seq<char>| #[trigger] with_modified(a, key) == with_modified(b, key),
    ensures
        a.to_multiset() == b.to_multiset(),
{
    assert forall|x: Metadata| a.to_multiset().count(x) == b.to_multiset().count(x) by {
        lemma_group_count(a, x);
        lemma_group_count(b, x);
        assert(with_modified(a, x.modified_at@) == with_modified(b, x.modified_at@));
    }
    assert(a.to_multiset() =~= b.to_multiset());
}

/// Ordering a listing newest first neither loses nor adds files.
pub proof fn law_sorting_keeps_the_files(files: Seq<Metadata>, sorted: Seq<Metadata>)
    requires
        forall|key: Seq<char>| #[trigger] with_modified(sorted, key) == with_modified(files, key),
    ensures
        sorted.to_multiset() == files.to_multiset(),
{
    law_same_groups_same_files(sorted, files);
}

/// The name filter ignores case on both sides: two query texts with the
/// same lower-case form accept exactly the same files.
pub proof fn law_name_filter_ignores_case(q: FileQuery, m: Metadata, n1: String, n2: String)
    requires
        unicode_lowercase(n1@) == unicode_lowercase(n2@),
    ensures
        query_accepts(FileQuery { name_contains: Some(n1), ..q }, m) == query_accepts(
            FileQuery { name_contains: Some(n2), ..q },
            m,
        ),
{
}

/// A lower-cased text contains itself.
proof fn lemma_contains_itself(t: Seq<char>)
    ensures
        contains_text(t, t),
{
    let i: int = 0;
    assert(t.subrange(i, i + t.len()) =~= t);
}

/// A file is always found by a name query that is its own name.
pub proof fn law_a_file_is_found_by_its_name(m: Metadata)
    ensures
        query_accepts(FileQuery { name_contains: Some(m.name), ..FileQuery::empty() }, m),
{
    lemma_contains_itself(unicode_lowercase(m.name@));
}

/// The content search ignores case on both sides: two terms with the same
/// lower-case form select exactly the same files.
pub proof fn law_content_search_ignores_case(
    files: Seq<Metadata>,
    contents: Seq<Option<String>>,
    t1: Seq<char>,
    t2: Seq<char>,
)
    requires
        unicode_lowercase(t1) == unicode_lowercase(t2),
    ensures
        selected_by_content(files, contents, t1) == selected_by_content(files, contents, t2),
    decreases files.len(),
{
    if files.len() > 0 && contents.len() > 0 {
        law_content_search_ignores_case(files.drop_last(), contents.drop_last(), t1, t2);
    }
}

/// A file whose content is exactly the search term is found.
pub proof fn law_content_equal_to_the_term_is_found(m: Metadata, c: String)
    ensures
        selected_by_content(seq![m], seq![Some(c)], c@) == seq![m],
{
    lemma_contains_itself(unicode_lowercase(c@));
    assert(seq![m].drop_last() =~= Seq::<Metadata>::empty());
    assert(seq![Some(c)].drop_last() =~= Seq::<Option<String>>::empty());
    assert(selected_by_content(Seq::<Metadata>::empty(), Seq::<Option<String>>::empty(), c@)
        =~= Seq::<Metadata>::empty());
    assert(Seq::<Metadata>::empty().push(m) =~= seq![m]);
}

/// Every update stamps the modification time with the time it is made,
/// whether it changes metadata, content, both or nothing; the id and the
/// creation time stay.
pub proof fn law_every_update_stamps_the_time(stored: Metadata, update: UpdateFile, now: String)
    ensures
        metadata_after_update(stored, update, now).modified_at == now,
        metadata_after_update(stored, update, now).created_at == stored.created_at,
        metadata_after_update(stored, update, now).id == stored.id,
{
}

} // verus!
