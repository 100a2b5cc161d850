//! `POST /api/files/upload`: a multipart upload of a file, with optional
//! comma-separated tags.

use vstd::prelude::*;

use crate::text::{chars_of, string_from_range, trim, trim_range, views, CharClass};

pub use crate::inbound::server::handlers::backend::list_files::MetadataResponse;

verus! {

// ───────────────────────── file names ─────────────────────────

/// The position of the last `c` in `s`, or -1.
pub open spec fn last_index_of(s: Seq<char>, c: char) -> int
    decreases s.len(),
{
    if s.len() == 0 {
        -1
    } else if s.last() == c {
        s.len() - 1
    } else {
        last_index_of(s.drop_last(), c)
    }
}

/// `last_index_of` is a position of `c` with no `c` after it, or -1 when
/// `s` holds no `c`.
pub proof fn lemma_last_index_of(s: Seq<char>, c: char)
    ensures
        -1 <= last_index_of(s, c) < s.len(),
        last_index_of(s, c) >= 0 ==> s[last_index_of(s, c)] == c,
        forall|j: int| last_index_of(s, c) < j < s.len() ==> s[j] != c,
    decreases s.len(),
{
    if s.len() > 0 && s.last() != c {
        lemma_last_index_of(s.drop_last(), c);
        assert forall|j: int| last_index_of(s, c) < j < s.len() implies s[j] != c by {
            if j < s.len() - 1 {
                assert(s.drop_last()[j] == s[j]);
            }
        }
    }
}

/// Splits an uploaded file name at its last dot into name and extension;
/// a name without a dot has an empty extension.
pub fn split_file_name(file_name: &str) -> (r: (String, String))
    ensures
        last_index_of(file_name@, '.') >= 0 ==> r.0@ == file_name@.take(last_index_of(file_name@, '.'))
            && r.1@ == file_name@.skip(last_index_of(file_name@, '.') + 1),
        last_index_of(file_name@, '.') < 0 ==> r.0@ == file_name@ && r.1@ == Seq::<char>::empty(),
{
    let v = chars_of(file_name);
    let mut i = v.len();
    assert(v@.take(v@.len() as int) =~= v@);
    while i > 0 && v[i - 1] != '.'
        invariant
            v@ == file_name@,
            i <= v.len(),
            last_index_of(v@, '.') == last_index_of(v@.take(i as int), '.'),
        decreases i,
    {
        assert(v@.take(i as int).drop_last() =~= v@.take(i - 1));
        i = i - 1;
    }
    if i == 0 {
        assert(v@.take(0) =~= Seq::<char>::empty());
        assert(v@.subrange(0, v@.len() as int) =~= v@);
        (string_from_range(&v, 0, v.len()), String::new())
    } else {
        assert(v@.take(i as int).last() == '.');
        assert(v@.take(i - 1) =~= v@.subrange(0, i - 1));
        assert(v@.skip(i as int) =~= v@.subrange(i as int, v@.len() as int));
        (string_from_range(&v, 0, i - 1), string_from_range(&v, i, v.len()))
    }
}

/// Splitting at the last dot loses nothing: name, dot and extension make
/// the file name again.
pub proof fn law_split_file_name_round_trip(file_name: Seq<char>)
    requires
        last_index_of(file_name, '.') >= 0,
    ensures
        file_name.take(last_index_of(file_name, '.')) + "."@ + file_name.skip(
            last_index_of(file_name, '.') + 1,
        ) == file_name,
{
    lemma_last_index_of(file_name, '.');
    let d = last_index_of(file_name, '.');
    reveal_strlit(".");
    assert(file_name.take(d) + "."@ + file_name.skip(d + 1) =~= file_name);
}

// ───────────────────────── tags ─────────────────────────

/// The pieces of `s` between commas, from a piece that starts at `start`,
/// scanning at `pos` (`str::split(',')`).
pub open spec fn pieces_from(s: Seq<char>, start: int, pos: int) -> Seq<Seq<char>>
    decreases s.len() - pos,
{
    if pos >= s.len() {
        seq![s.subrange(start, s.len() as int)]
    } else if s[pos] == ',' {
        seq![s.subrange(start, pos)] + pieces_from(s, pos + 1, pos + 1)
    } else {
        pieces_from(s, start, pos + 1)
    }
}

/// Whether a text is not empty.
pub open spec fn is_nonempty(t: Seq<char>) -> bool {
    t.len() > 0
}

/// The tags of a comma-separated text: the pieces, trimmed, that are not
/// empty, in order.
pub open spec fn tags_in(text: Seq<char>) -> Seq<Seq<char>> {
    pieces_from(text, 0, 0).map_values(|p: Seq<char>| trim(p)).filter(|t: Seq<char>| is_nonempty(t))
}

/// The trimmed non-empty pieces of a list of pieces.
pub open spec fn kept_pieces(pieces: Seq<Seq<char>>) -> Seq<Seq<char>> {
    pieces.map_values(|p: Seq<char>| trim(p)).filter(|t: Seq<char>| is_nonempty(t))
}

/// Keeping one more piece adds its trimmed form when that is not empty.
proof fn lemma_kept_pieces_push(done: Seq<Seq<char>>, piece: Seq<char>)
    ensures
        kept_pieces(done.push(piece)) == if trim(piece).len() > 0 {
            kept_pieces(done).push(trim(piece))
        } else {
            kept_pieces(done)
        },
{
    let f = |q: Seq<char>| trim(q);
    let keep = |t: Seq<char>| is_nonempty(t);
    assert(done.push(piece).map_values(f) =~= done.map_values(f).push(trim(piece)));
    done.map_values(f).lemma_filter_push(trim(piece), keep);
}

/// Adds the trimmed piece `v[start..end]` to the tags if it is not empty.
fn keep_piece(v: &Vec<char>, start: usize, end: usize, r: &mut Vec<String>)
    requires
        start <= end <= v.len(),
    ensures
        views(final(r)@) == if trim(v@.subrange(start as int, end as int)).len() > 0 {
            views(old(r)@).push(trim(v@.subrange(start as int, end as int)))
        } else {
            views(old(r)@)
        },
{
    let (a, b) = trim_range(v, start, end, CharClass::Whitespace);
    if a < b {
        let t = string_from_range(v, a, b);
        r.push(t);
        assert(views(r@) =~= views(old(r)@).push(trim(v@.subrange(start as int, end as int))));
    }
}

/// The tags of a comma-separated text: each piece trimmed, empty pieces
/// dropped.
pub fn parse_tags(text: &str) -> (r: Vec<String>)
    ensures
        views(r@) == tags_in(text@),
{
    let v = chars_of(text);
    let mut r: Vec<String> = Vec::new();
    let mut start: usize = 0;
    let mut pos: usize = 0;
    let ghost mut done: Seq<Seq<char>> = Seq::empty();
    assert(views(r@) =~= kept_pieces(done)) by {
        reveal(Seq::filter);
    }
    assert(done + pieces_from(v@, 0, 0) =~= pieces_from(v@, 0, 0));
    while pos < v.len()
        invariant
            v@ == text@,
            start <= pos <= v.len(),
            done + pieces_from(v@, start as int, pos as int) == pieces_from(v@, 0, 0),
            views(r@) == kept_pieces(done),
        decreases v.len() - pos,
    {
        if v[pos] == ',' {
            let ghost piece = v@.subrange(start as int, pos as int);
            keep_piece(&v, start, pos, &mut r);
            proof {
                lemma_kept_pieces_push(done, piece);
                assert(done + pieces_from(v@, start as int, pos as int) =~= done.push(piece)
                    + pieces_from(v@, pos + 1, pos + 1));
                done = done.push(piece);
            }
            start = pos + 1;
        }
        pos = pos + 1;
    }
    let ghost last = v@.subrange(start as int, v@.len() as int);
    keep_piece(&v, start, v.len(), &mut r);
    proof {
        lemma_kept_pieces_push(done, last);
        assert(done + pieces_from(v@, start as int, pos as int) =~= done.push(last));
    }
    r
}

// ───────────────────────── the form ─────────────────────────

/// The fields of an upload read so far.
pub struct UploadForm {
    pub file_name: String,
    pub file_ext: String,
    pub file_mime: String,
    pub file_data: Option<Vec<u8>>,
    pub tags: Vec<String>,
}

/// A complete upload, ready to be stored.
#[derive(Debug)]
pub struct UploadRequest {
    pub name: String,
    pub ext: String,
    pub mime: String,
    pub tags: Vec<String>,
    pub data: Vec<u8>,
}

impl UploadForm {
    /// A form with nothing read: no name, extension or data, no tags, and
    /// the MIME type `application/octet-stream`.
    pub fn new() -> (f: Self)
        ensures
            f.file_name@ == Seq::<char>::empty(),
            f.file_ext@ == Seq::<char>::empty(),
            f.file_mime@ == "application/octet-stream"@,
            f.file_data is None,
            f.tags@ == Seq::<String>::empty(),
    {
        UploadForm {
            file_name: String::new(),
            file_ext: String::new(),
            file_mime: String::from_str("application/octet-stream"),
            file_data: None,
            tags: Vec::new(),
        }
    }

    /// Takes in the `file` field: its file name (split at the last dot into
    /// name and extension), its content type, and its bytes. What the field
    /// does not give stays as it was.
    pub fn accept_file(&mut self, file_name: Option<String>, content_type: Option<String>, data: Vec<u8>)
        ensures
            file_name matches Some(n) ==> (last_index_of(n@, '.') >= 0 ==> final(self).file_name@
                == n@.take(last_index_of(n@, '.')) && final(self).file_ext@ == n@.skip(
                last_index_of(n@, '.') + 1,
            )),
            file_name matches Some(n) ==> (last_index_of(n@, '.') < 0 ==> final(self).file_name@
                == n@ && final(self).file_ext@ == Seq::<char>::empty()),
            file_name is None ==> final(self).file_name == old(self).file_name
                && final(self).file_ext == old(self).file_ext,
            final(self).file_mime == (match content_type {
                Some(ct) => ct,
                None => old(self).file_mime,
            }),
            final(self).file_data == Some(data),
            final(self).tags == old(self).tags,
    {
        if let Some(fname) = file_name {
            let (name, ext) = split_file_name(fname.as_str());
            self.file_name = name;
            self.file_ext = ext;
        }
        if let Some(ct) = content_type {
            self.file_mime = ct;
        }
        self.file_data = Some(data);
    }

    /// Takes in the `tags` field: its comma-separated tags, trimmed and
    /// without empty ones, are added after those read before.
    pub fn accept_tags(&mut self, text: &str)
        ensures
            views(final(self).tags@) == views(old(self).tags@) + tags_in(text@),
            final(self).file_name == old(self).file_name,
            final(self).file_ext == old(self).file_ext,
            final(self).file_mime == old(self).file_mime,
            final(self).file_data == old(self).file_data,
    {
        let mut parsed = parse_tags(text);
        let ghost before = self.tags@;
        let ghost added = parsed@;
        self.tags.append(&mut parsed);
        assert(views(self.tags@) =~= views(before) + views(added));
    }

    /// The upload, once the form is read: refused with
    /// `No file field in upload` when no file came; an empty name becomes
    /// `uploaded` and an empty extension `bin`.
    pub fn finish(self) -> (r: Result<UploadRequest, String>)
        ensures
            self.file_data is None <==> r is Err,
            r matches Err(m) ==> m@ == "No file field in upload"@,
            r matches Ok(u) ==> {
                &&& u.name@ == (if self.file_name@.len() == 0 {
                    "uploaded"@
                } else {
                    self.file_name@
                })
                &&& u.ext@ == (if self.file_ext@.len() == 0 {
                    "bin"@
                } else {
                    self.file_ext@
                })
                &&& u.mime == self.file_mime
                &&& u.tags == self.tags
                &&& u.data == self.file_data->0
            },
            r matches Ok(u) ==> u.name@.len() > 0 && u.ext@.len() > 0,
    {
        proof {
            reveal_strlit("uploaded");
            reveal_strlit("bin");
        }
        let data = match self.file_data {
            Some(d) => d,
            None => {
                return Err(String::from_str("No file field in upload"));
            },
        };
        let name = if self.file_name.as_str().is_empty() {
            String::from_str("uploaded")
        } else {
            self.file_name
        };
        let ext = if self.file_ext.as_str().is_empty() {
            String::from_str("bin")
        } else {
            self.file_ext
        };
        Ok(UploadRequest { name, ext, mime: self.file_mime, tags: self.tags, data })
    }
}

// ───────────────────────── laws ─────────────────────────

/// Every tag read from a tags field is non-empty and has no surrounding
/// whitespace.
pub proof fn law_parsed_tags_are_trimmed_and_non_empty(text: Seq<char>)
    ensures
        forall|i: int| 0 <= i < tags_in(text).len() ==> #[trigger] tags_in(text)[i].len() > 0,
        forall|i: int| 0 <= i < tags_in(text).len() ==> trim(#[trigger] tags_in(text)[i]) == tags_in(text)[i],
{
    let pieces = pieces_from(text, 0, 0);
    let f = |p: Seq<char>| trim(p);
    let keep = |t: Seq<char>| is_nonempty(t);
    let trimmed = pieces.map_values(f);
    assert forall|i: int| 0 <= i < tags_in(text).len() implies #[trigger] tags_in(text)[i].len() > 0
        && trim(tags_in(text)[i]) == tags_in(text)[i] by {
        trimmed.lemma_filter_pred(keep, i);
        assert(trimmed.filter(keep).contains(tags_in(text)[i]));
        trimmed.lemma_filter_contains_rev(keep, tags_in(text)[i]);
        let k = choose|k: int| 0 <= k < trimmed.len() && trimmed[k] == tags_in(text)[i];
        crate::text::lemma_trim_idempotent(pieces[k], CharClass::Whitespace);
    }
}

/// The pieces of a text that holds no comma after `pos` end with one piece
/// that runs from `start` to the end.
proof fn lemma_pieces_without_comma(s: Seq<char>, start: int, pos: int)
    requires
        0 <= start <= pos <= s.len(),
        forall|j: int| pos <= j < s.len() ==> s[j] != ',',
    ensures
        pieces_from(s, start, pos) == seq![s.subrange(start, s.len() as int)],
    decreases s.len() - pos,
{
    if pos < s.len() {
        lemma_pieces_without_comma(s, start, pos + 1);
    }
}

/// Scanning the part `b` of `p + b` splits it as `b` alone is split.
proof fn lemma_pieces_shift(p: Seq<char>, b: Seq<char>, start: int, pos: int)
    requires
        0 <= start <= pos <= b.len(),
    ensures
        pieces_from(p + b, p.len() + start, p.len() + pos) == pieces_from(b, start, pos),
    decreases b.len() - pos,
{
    let s = p + b;
    if pos >= b.len() {
        assert(s.subrange(p.len() + start, s.len() as int) =~= b.subrange(start, b.len() as int));
    } else {
        assert(s[p.len() + pos] == b[pos]);
        if b[pos] == ',' {
            assert(s.subrange(p.len() + start, p.len() + pos) =~= b.subrange(start, pos));
            lemma_pieces_shift(p, b, pos + 1, pos + 1);
        } else {
            lemma_pieces_shift(p, b, start, pos + 1);
        }
    }
}

/// The pieces of `a + "," + b`, scanned from inside `a`, are those of `a`
/// followed by those of `b`.
proof fn lemma_pieces_split(a: Seq<char>, b: Seq<char>, start: int, pos: int)
    requires
        0 <= start <= pos <= a.len(),
    ensures
        pieces_from(a + seq![','] + b, start, pos) == pieces_from(a, start, pos) + pieces_from(b, 0, 0),
    decreases a.len() - pos,
{
    let s = a + seq![','] + b;
    if pos == a.len() {
        assert(s[pos] == ',');
        assert(s.subrange(start, pos) =~= a.subrange(start, a.len() as int));
        assert(s =~= (a + seq![',']) + b);
        lemma_pieces_shift(a + seq![','], b, 0, 0);
        assert((a + seq![',']).len() == a.len() + 1);
    } else {
        assert(s[pos] == a[pos]);
        if a[pos] == ',' {
            assert(s.subrange(start, pos) =~= a.subrange(start, pos));
            lemma_pieces_split(a, b, pos + 1, pos + 1);
            assert(seq![a.subrange(start, pos)] + (pieces_from(a, pos + 1, pos + 1) + pieces_from(b, 0, 0))
                =~= (seq![a.subrange(start, pos)] + pieces_from(a, pos + 1, pos + 1)) + pieces_from(b, 0, 0));
        } else {
            lemma_pieces_split(a, b, start, pos + 1);
        }
    }
}

/// A tags field without commas holds one tag, the whole text trimmed, when
/// that is not empty: nothing but a comma separates tags.
pub proof fn law_text_without_commas_is_one_tag(text: Seq<char>)
    requires
        forall|j: int| 0 <= j < text.len() ==> text[j] != ',',
        trim(text).len() > 0,
    ensures
        tags_in(text) == seq![trim(text)],
{
    lemma_pieces_without_comma(text, 0, 0);
    assert(text.subrange(0, text.len() as int) =~= text);
    let keep = |t: Seq<char>| is_nonempty(t);
    let trimmed = seq![text].map_values(|p: Seq<char>| trim(p));
    assert(trimmed =~= Seq::<Seq<char>>::empty().push(trim(text)));
    Seq::<Seq<char>>::empty().lemma_filter_push(trim(text), keep);
    assert(Seq::<Seq<char>>::empty().filter(keep) =~= Seq::<Seq<char>>::empty()) by {
        reveal(Seq::filter);
    }
    assert(Seq::<Seq<char>>::empty().push(trim(text)) =~= seq![trim(text)]);
}

/// The tags of two texts joined by a comma are the tags of the first
/// followed by the tags of the second.
pub proof fn law_comma_joins_tags(a: Seq<char>, b: Seq<char>)
    ensures
        tags_in(a + seq![','] + b) == tags_in(a) + tags_in(b),
{
    lemma_pieces_split(a, b, 0, 0);
    let f = |p: Seq<char>| trim(p);
    let keep = |t: Seq<char>| is_nonempty(t);
    let pa = pieces_from(a, 0, 0);
    let pb = pieces_from(b, 0, 0);
    assert((pa + pb).map_values(f) =~= pa.map_values(f) + pb.map_values(f));
    Seq::filter_distributes_over_add(pa.map_values(f), pb.map_values(f), keep);
}

} // verus!
