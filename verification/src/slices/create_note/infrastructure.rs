//! The on-disk note format: `<storage_dir>/<id>.md`, a frontmatter block
//! (`createdAt`, `updatedAt`, `tags`) between `---` lines, then the body.
//! Reading and writing the files is left to the application; this module
//! holds the file's text in both directions.
use crate::paths::is_path_in;
use crate::text::{
    chars_of, find_char, first_index_of, is_white_space, lemma_first_index_concat,
    lemma_trim_fixed, lemma_trim_idempotent, lemma_trim_ws_prefix, owned, push_char, push_str,
    spec_trim, str_eq, string_from_range, trim_bounds,
};
use crate::types::note::{note_view_wf, persisted_view, NoteView};
use crate::types::note_body::has_delimiter_line;
use crate::types::note_id::md_file_name;
use crate::types::tag::{has_forbidden_tag_char, is_forbidden_tag_char, tag_new_outcome};
use crate::types::tag_set::{dedup_first, lemma_dedup_first_unique, names_of, no_duplicate_names};
use crate::types::timestamp::{
    compact_text, is_ascii_digit, lemma_compact_roundtrip, lemma_compact_text_chars, parse_compact,
    valid_time_fields, TimeFields,
};
use crate::types::{Note, NoteBody, NoteId, Tag, TagSet, Timestamp};
use vstd::prelude::*;

verus! {

/// Why a file could not be read as a note.
#[derive(Debug)]
pub enum ParseError {
    MissingOpenDelimiter,
    MissingCloseDelimiter,
    /// The frontmatter lacks this key.
    MissingKey(String),
    /// The value of `key` is not a `YYYYMMDDhhmmss` time.
    InvalidTimestamp { key: String, raw: String },
    /// The tags value is not bracketed, or one of its tags is refused.
    InvalidTag(String),
    /// The body holds a delimiter line; the body error's message.
    InvalidBody(String),
}

/// `ParseError` with its texts as sequences.
pub enum ParseFailure {
    MissingOpenDelimiter,
    MissingCloseDelimiter,
    MissingKey(Seq<char>),
    InvalidTimestamp(Seq<char>, Seq<char>),
    InvalidTag(Seq<char>),
    InvalidBody(Seq<char>),
}

impl View for ParseError {
    type V = ParseFailure;

    open spec fn view(&self) -> ParseFailure {
        match self {
            ParseError::MissingOpenDelimiter => ParseFailure::MissingOpenDelimiter,
            ParseError::MissingCloseDelimiter => ParseFailure::MissingCloseDelimiter,
            ParseError::MissingKey(k) => ParseFailure::MissingKey(k@),
            ParseError::InvalidTimestamp { key, raw } => ParseFailure::InvalidTimestamp(key@, raw@),
            ParseError::InvalidTag(t) => ParseFailure::InvalidTag(t@),
            ParseError::InvalidBody(m) => ParseFailure::InvalidBody(m@),
        }
    }
}

/// The message of a parse failure.
pub open spec fn parse_failure_text(f: ParseFailure) -> Seq<char> {
    match f {
        ParseFailure::MissingOpenDelimiter => "missing opening frontmatter delimiter"@,
        ParseFailure::MissingCloseDelimiter => "missing closing frontmatter delimiter"@,
        ParseFailure::MissingKey(k) => "missing required frontmatter key '"@ + k + "'"@,
        ParseFailure::InvalidTimestamp(k, r) => "invalid timestamp for '"@ + k + "': "@ + r,
        ParseFailure::InvalidTag(t) => "invalid tag '"@ + t + "'"@,
        ParseFailure::InvalidBody(m) => "invalid body: "@ + m,
    }
}

impl ParseError {
    pub fn message(&self) -> (m: String)
        ensures
            m@ == parse_failure_text(self@),
    {
        let mut m = String::new();
        match self {
            ParseError::MissingOpenDelimiter => push_str(&mut m, "missing opening frontmatter delimiter"),
            ParseError::MissingCloseDelimiter => push_str(&mut m, "missing closing frontmatter delimiter"),
            ParseError::MissingKey(k) => {
                push_str(&mut m, "missing required frontmatter key '");
                push_str(&mut m, k.as_str());
                push_str(&mut m, "'");
            },
            ParseError::InvalidTimestamp { key, raw } => {
                push_str(&mut m, "invalid timestamp for '");
                push_str(&mut m, key.as_str());
                push_str(&mut m, "': ");
                push_str(&mut m, raw.as_str());
            },
            ParseError::InvalidTag(t) => {
                push_str(&mut m, "invalid tag '");
                push_str(&mut m, t.as_str());
                push_str(&mut m, "'");
            },
            ParseError::InvalidBody(b) => {
                push_str(&mut m, "invalid body: ");
                push_str(&mut m, b.as_str());
            },
        }
        m
    }
}

/// The message of the error that loading a malformed file at `path` gives.
pub fn malformed_note_message(path: &str, e: &ParseError) -> (m: String)
    ensures
        m@ == "malformed note at "@ + path@ + ": "@ + parse_failure_text(e@),
{
    let mut m = String::new();
    push_str(&mut m, "malformed note at ");
    push_str(&mut m, path);
    push_str(&mut m, ": ");
    let t = e.message();
    push_str(&mut m, t.as_str());
    m
}

// ----- writing -----

/// `x` followed by a newline.
pub open spec fn text_line(x: Seq<char>) -> Seq<char> {
    x.push('\n')
}

/// `, name` for each name in turn.
pub open spec fn joined_tail(ns: Seq<Seq<char>>) -> Seq<char>
    decreases ns.len(),
{
    if ns.len() == 0 {
        Seq::empty()
    } else {
        ", "@ + ns[0] + joined_tail(ns.drop_first())
    }
}

/// The names separated by `, `.
pub open spec fn joined(ns: Seq<Seq<char>>) -> Seq<char> {
    if ns.len() == 0 {
        Seq::empty()
    } else {
        ns[0] + joined_tail(ns.drop_first())
    }
}

/// The text of a note's file.
pub open spec fn note_file_text(v: NoteView) -> Seq<char> {
    text_line("---"@) + text_line("createdAt: "@ + compact_text(v.created_at)) + text_line(
        "updatedAt: "@ + compact_text(v.updated_at),
    ) + text_line("tags: ["@ + joined(v.tags) + "]"@) + text_line("---"@) + v.body
}

/// The tag names separated by `, `.
pub fn join_tag_names(tags: &[Tag]) -> (r: String)
    ensures
        r@ == joined(names_of(tags@)),
{
    let ghost ns = names_of(tags@);
    let mut s = String::new();
    if tags.len() == 0 {
        return s;
    }
    push_str(&mut s, tags[0].name());
    assert(ns.drop_first() =~= ns.subrange(1, ns.len() as int));
    let mut i: usize = 1;
    while i < tags.len()
        invariant
            1 <= i <= tags.len(),
            ns == names_of(tags@),
            s@ + joined_tail(ns.subrange(i as int, ns.len() as int)) == joined(ns),
        decreases tags.len() - i,
    {
        let ghost before = s@;
        let ghost rest = ns.subrange(i as int, ns.len() as int);
        assert(rest.drop_first() =~= ns.subrange(i + 1, ns.len() as int));
        assert(rest[0] == tags@[i as int]@);
        push_str(&mut s, ", ");
        push_str(&mut s, tags[i].name());
        assert(before + joined_tail(rest) =~= s@ + joined_tail(rest.drop_first()));
        i = i + 1;
    }
    assert(ns.subrange(i as int, ns.len() as int) =~= Seq::<Seq<char>>::empty());
    assert(s@ + Seq::<char>::empty() =~= s@);
    s
}

/// The text of the note's file.
pub fn render_note_md(note: &Note) -> (r: String)
    ensures
        r@ == note_file_text(note@),
{
    let mut s = String::new();
    push_str(&mut s, "---");
    push_char(&mut s, '\n');
    push_str(&mut s, "createdAt: ");
    let c = note.created_at().format_yyyymmddhhmmss();
    push_str(&mut s, c.as_str());
    push_char(&mut s, '\n');
    push_str(&mut s, "updatedAt: ");
    let u = note.updated_at().format_yyyymmddhhmmss();
    push_str(&mut s, u.as_str());
    push_char(&mut s, '\n');
    push_str(&mut s, "tags: [");
    let j = join_tag_names(note.tags().as_slice());
    push_str(&mut s, j.as_str());
    push_str(&mut s, "]");
    push_char(&mut s, '\n');
    push_str(&mut s, "---");
    push_char(&mut s, '\n');
    push_str(&mut s, note.body().as_str());
    let ghost v = note@;
    assert(s@ =~= note_file_text(v));
    s
}

// ----- reading -----

/// What the frontmatter has set so far: `createdAt`, `updatedAt`, `tags`.
pub type FrontmatterFields = (Option<TimeFields>, Option<TimeFields>, Option<Seq<Seq<char>>>);

/// The tags of the comma-separated list `s`: each piece trimmed, empty pieces
/// skipped, the others read with `Tag::new`; the first refused piece (trimmed)
/// is the error.
pub open spec fn inline_tags(s: Seq<char>) -> Result<Seq<Seq<char>>, Seq<char>>
    decreases s.len(),
{
    let e = first_index_of(s, ',');
    let t = spec_trim(s.subrange(0, e));
    let rest = if 0 <= e < s.len() {
        inline_tags(s.subrange(e + 1, s.len() as int))
    } else {
        Ok(Seq::empty())
    };
    if t.len() == 0 {
        rest
    } else {
        match tag_new_outcome(t) {
            Err(_) => Err(t),
            Ok(n) => match rest {
                Ok(ns) => Ok(seq![n] + ns),
                Err(x) => Err(x),
            },
        }
    }
}

/// The tags of the value of the `tags` key: `[a, b, ...]`, repeats dropped;
/// a value that is not bracketed is itself the error.
pub open spec fn tags_value_outcome(value: Seq<char>) -> Result<Seq<Seq<char>>, Seq<char>> {
    if value.len() >= 2 && value[0] == '[' && value[value.len() - 1] == ']' {
        match inline_tags(value.subrange(1, value.len() - 1)) {
            Ok(ns) => Ok(dedup_first(ns)),
            Err(t) => Err(t),
        }
    } else {
        Err(value)
    }
}

/// What one frontmatter line does: a line without `:` or with another key is
/// ignored; `createdAt` / `updatedAt` / `tags` set their field from the
/// trimmed value (a later line overrides an earlier one), or fail.
pub open spec fn read_field(line: Seq<char>, fm: FrontmatterFields) -> Result<FrontmatterFields, ParseFailure> {
    let c = first_index_of(line, ':');
    if c >= line.len() {
        Ok(fm)
    } else {
        let key = spec_trim(line.subrange(0, c));
        let value = spec_trim(line.subrange(c + 1, line.len() as int));
        if key == "createdAt"@ {
            match parse_compact(value) {
                Some(t) => Ok((Some(t), fm.1, fm.2)),
                None => Err(ParseFailure::InvalidTimestamp("createdAt"@, value)),
            }
        } else if key == "updatedAt"@ {
            match parse_compact(value) {
                Some(t) => Ok((fm.0, Some(t), fm.2)),
                None => Err(ParseFailure::InvalidTimestamp("updatedAt"@, value)),
            }
        } else if key == "tags"@ {
            match tags_value_outcome(value) {
                Ok(ns) => Ok((fm.0, fm.1, Some(ns))),
                Err(t) => Err(ParseFailure::InvalidTag(t)),
            }
        } else {
            Ok(fm)
        }
    }
}

/// Reads frontmatter lines from `s` up to the closing `---` line; gives the
/// fields and the text after that line.
pub open spec fn scan_frontmatter(s: Seq<char>, fm: FrontmatterFields) -> Result<
    (FrontmatterFields, Seq<char>),
    ParseFailure,
>
    decreases s.len(),
{
    if s.len() == 0 {
        Err(ParseFailure::MissingCloseDelimiter)
    } else {
        let e = first_index_of(s, '\n');
        let line = s.subrange(0, e);
        if line == "---"@ {
            Ok((fm, rest_after_line(s)))
        } else {
            match read_field(line, fm) {
                Err(x) => Err(x),
                Ok(fm2) => scan_frontmatter(rest_after_line(s), fm2),
            }
        }
    }
}

/// The text after the first line of `s` (empty when `s` is one line).
pub open spec fn rest_after_line(s: Seq<char>) -> Seq<char> {
    let e = first_index_of(s, '\n');
    if 0 <= e < s.len() {
        s.subrange(e + 1, s.len() as int)
    } else {
        Seq::empty()
    }
}

/// What reading the file text `raw` gives: the first line must be `---`;
/// then the frontmatter; then the three keys must all have been set, and the
/// rest must be a valid body.
pub open spec fn parse_note_outcome(raw: Seq<char>) -> Result<NoteView, ParseFailure> {
    if raw.subrange(0, first_index_of(raw, '\n')) != "---"@ {
        Err(ParseFailure::MissingOpenDelimiter)
    } else {
        match scan_frontmatter(rest_after_line(raw), (None, None, None)) {
            Err(x) => Err(x),
            Ok((fm, body)) => match fm {
                (None, _, _) => Err(ParseFailure::MissingKey("createdAt"@)),
                (Some(_), None, _) => Err(ParseFailure::MissingKey("updatedAt"@)),
                (Some(_), Some(_), None) => Err(ParseFailure::MissingKey("tags"@)),
                (Some(c), Some(u), Some(ts)) => if has_delimiter_line(body) {
                    Err(
                        ParseFailure::InvalidBody(
                            "note body must not contain a frontmatter delimiter line '---'"@,
                        ),
                    )
                } else {
                    Ok(persisted_view(body, ts, c, u))
                },
            },
        }
    }
}

/// `acc` followed by what the rest of the list gives.
pub open spec fn after_prefix(acc: Seq<Seq<char>>, r: Result<Seq<Seq<char>>, Seq<char>>) -> Result<
    Seq<Seq<char>>,
    Seq<char>,
> {
    match r {
        Ok(ns) => Ok(acc + ns),
        Err(t) => Err(t),
    }
}

/// Reads the value of the `tags` key.
pub fn parse_tags_inline(value: &str) -> (r: Result<TagSet, ParseError>)
    ensures
        match tags_value_outcome(value@) {
            Ok(ns) => r matches Ok(ts) && ts@ == ns,
            Err(t) => r matches Err(ParseError::InvalidTag(x)) && x@ == t,
        },
{
    let v = chars_of(value);
    let n = v.len();
    if !(n >= 2 && v[0] == '[' && v[n - 1] == ']') {
        return Err(ParseError::InvalidTag(owned(value)));
    }
    let hi = n - 1;
    let ghost whole = inline_tags(v@.subrange(1, hi as int));
    let mut parsed: Vec<Tag> = Vec::new();
    let mut pos: usize = 1;
    let mut done = false;
    while !done
        invariant
            1 <= pos <= hi < v.len(),
            hi == v.len() - 1,
            v@ == value@,
            v@.len() >= 2 && v@[0] == '[' && v@[v@.len() - 1] == ']',
            whole == inline_tags(v@.subrange(1, hi as int)),
            !done ==> whole == after_prefix(names_of(parsed@), inline_tags(v@.subrange(pos as int, hi as int))),
            done ==> whole == Ok::<Seq<Seq<char>>, Seq<char>>(names_of(parsed@)),
        decreases hi - pos + (if done { 0int } else { 1int }),
    {
        let ghost s = v@.subrange(pos as int, hi as int);
        let ghost acc = names_of(parsed@);
        let e = find_char(&v, ',', pos, hi);
        let (a, b) = trim_bounds(&v, pos, e);
        proof {
            assert(s.subrange(0, e - pos) =~= v@.subrange(pos as int, e as int));
            if e < hi {
                assert(s.subrange(e - pos + 1, s.len() as int) =~= v@.subrange(e + 1, hi as int));
            }
        }
        if a < b {
            let t = string_from_range(&v, a, b);
            match Tag::new(t.as_str()) {
                Ok(tag) => {
                    let ghost before = parsed@;
                    parsed.push(tag);
                    proof {
                        assert(names_of(parsed@) =~= names_of(before).push(tag@));
                        let rest = if e < hi {
                            inline_tags(v@.subrange(e + 1, hi as int))
                        } else {
                            Ok(Seq::empty())
                        };
                        match rest {
                            Ok(ns) => {
                                assert(acc + (seq![tag@] + ns) =~= names_of(parsed@) + ns);
                            },
                            Err(_) => {},
                        }
                    }
                },
                Err(_) => {
                    return Err(ParseError::InvalidTag(t));
                },
            }
        }
        if e < hi {
            pos = e + 1;
        } else {
            done = true;
            proof {
                assert(names_of(parsed@) + Seq::<Seq<char>>::empty() =~= names_of(parsed@));
            }
        }
    }
    Ok(TagSet::from_tags(parsed))
}

/// The fields read so far, as the frontmatter scan sees them.
pub open spec fn fields_of(c: Option<Timestamp>, u: Option<Timestamp>, t: Option<TagSet>) -> FrontmatterFields {
    (
        match c {
            Some(x) => Some(x@),
            None => None,
        },
        match u {
            Some(x) => Some(x@),
            None => None,
        },
        match t {
            Some(x) => Some(x@),
            None => None,
        },
    )
}

/// Reads a note from the text of its file.
pub fn parse_note_md(raw: &str) -> (r: Result<Note, ParseError>)
    ensures
        match parse_note_outcome(raw@) {
            Ok(v) => r matches Ok(note) && note@ == v,
            Err(f) => r matches Err(e) && e@ == f,
        },
{
    let v = chars_of(raw);
    let n = v.len();
    let e0 = find_char(&v, '\n', 0, n);
    let opener = string_from_range(&v, 0, e0);
    assert(v@.subrange(0, n as int) =~= raw@);
    if !str_eq(opener.as_str(), "---") {
        return Err(ParseError::MissingOpenDelimiter);
    }
    let start = if e0 < n {
        e0 + 1
    } else {
        n
    };
    proof {
        if e0 < n {
            assert(rest_after_line(raw@) =~= v@.subrange(start as int, n as int));
        } else {
            assert(rest_after_line(raw@) =~= v@.subrange(start as int, n as int));
        }
    }
    let ghost whole = scan_frontmatter(v@.subrange(start as int, n as int), (None, None, None));
    let mut created: Option<Timestamp> = None;
    let mut updated: Option<Timestamp> = None;
    let mut tags: Option<TagSet> = None;
    let mut pos = start;
    let mut closed = false;
    while pos < n && !closed
        invariant
            start <= pos <= n == v.len(),
            v@ == raw@,
            raw@.subrange(0, first_index_of(raw@, '\n')) == "---"@,
            rest_after_line(raw@) == v@.subrange(start as int, n as int),
            whole == scan_frontmatter(v@.subrange(start as int, n as int), (None, None, None)),
            !closed ==> whole == scan_frontmatter(v@.subrange(pos as int, n as int), fields_of(created, updated, tags)),
            closed ==> whole == Ok::<(FrontmatterFields, Seq<char>), ParseFailure>(
                (fields_of(created, updated, tags), v@.subrange(pos as int, n as int)),
            ),
        decreases n - pos + (if closed { 0int } else { 1int }),
    {
        let ghost s = v@.subrange(pos as int, n as int);
        let ghost fm = fields_of(created, updated, tags);
        let e = find_char(&v, '\n', pos, n);
        let next = if e < n {
            e + 1
        } else {
            n
        };
        let line = string_from_range(&v, pos, e);
        proof {
            assert(s.subrange(0, e - pos) =~= line@);
            assert(rest_after_line(s) =~= v@.subrange(next as int, n as int));
        }
        if str_eq(line.as_str(), "---") {
            closed = true;
            pos = next;
        } else {
            let c = find_char(&v, ':', pos, e);
            proof {
                assert(line@ =~= v@.subrange(pos as int, e as int));
            }
            if c < e {
                let (ka, kb) = trim_bounds(&v, pos, c);
                let (va, vb) = trim_bounds(&v, c + 1, e);
                let key = string_from_range(&v, ka, kb);
                let value = string_from_range(&v, va, vb);
                proof {
                    assert(line@.subrange(0, c - pos) =~= v@.subrange(pos as int, c as int));
                    assert(line@.subrange(c - pos + 1, line@.len() as int) =~= v@.subrange(
                        c + 1,
                        e as int,
                    ));
                }
                if str_eq(key.as_str(), "createdAt") {
                    match Timestamp::parse_yyyymmddhhmmss(value.as_str()) {
                        Ok(t) => {
                            created = Some(t);
                        },
                        Err(_) => {
                            return Err(
                                ParseError::InvalidTimestamp { key: owned("createdAt"), raw: value },
                            );
                        },
                    }
                } else if str_eq(key.as_str(), "updatedAt") {
                    match Timestamp::parse_yyyymmddhhmmss(value.as_str()) {
                        Ok(t) => {
                            updated = Some(t);
                        },
                        Err(_) => {
                            return Err(
                                ParseError::InvalidTimestamp { key: owned("updatedAt"), raw: value },
                            );
                        },
                    }
                } else if str_eq(key.as_str(), "tags") {
                    match parse_tags_inline(value.as_str()) {
                        Ok(ts) => {
                            tags = Some(ts);
                        },
                        Err(x) => {
                            return Err(x);
                        },
                    }
                }
            }
            pos = next;
        }
    }
    if !closed {
        assert(v@.subrange(pos as int, n as int) =~= Seq::<char>::empty());
        return Err(ParseError::MissingCloseDelimiter);
    }
    let created_at = match created {
        Some(t) => t,
        None => {
            return Err(ParseError::MissingKey(owned("createdAt")));
        },
    };
    let updated_at = match updated {
        Some(t) => t,
        None => {
            return Err(ParseError::MissingKey(owned("updatedAt")));
        },
    };
    let tag_set = match tags {
        Some(t) => t,
        None => {
            return Err(ParseError::MissingKey(owned("tags")));
        },
    };
    let body_text = string_from_range(&v, pos, n);
    let body = match NoteBody::new(body_text) {
        Ok(b) => b,
        Err(e) => {
            return Err(ParseError::InvalidBody(e.message()));
        },
    };
    Ok(Note::from_persisted(body, tag_set, created_at, updated_at))
}

/// A file name whose extension (the text after the last `.`, with something
/// before that dot) is `md`.
pub open spec fn is_md_file_name(name: Seq<char>) -> bool {
    name.len() > 3 && name.subrange(name.len() - 3, name.len() as int) == ".md"@
}

/// Whether a directory entry's file name marks a note file.
pub fn has_md_extension(file_name: &str) -> (r: bool)
    ensures
        r == is_md_file_name(file_name@),
{
    proof {
        reveal_strlit(".md");
    }
    let v = chars_of(file_name);
    let n = v.len();
    if n <= 3 {
        return false;
    }
    let r = v[n - 3] == '.' && v[n - 2] == 'm' && v[n - 1] == 'd';
    proof {
        let tail = file_name@.subrange(n - 3, n as int);
        if r {
            assert(tail =~= ".md"@);
        } else {
            assert(tail[0] != '.' || tail[1] != 'm' || tail[2] != 'd');
            assert(tail != ".md"@);
        }
    }
    r
}

/// The notes a directory listing gives: in order, the note of each entry
/// whose name is a `.md` file name and whose content was read and reads as a
/// note; unreadable, malformed and other entries are skipped.
pub open spec fn listed_notes(entries: Seq<(String, Option<String>)>) -> Seq<NoteView>
    decreases entries.len(),
{
    if entries.len() == 0 {
        Seq::empty()
    } else {
        let p = listed_notes(entries.drop_last());
        let e = entries.last();
        match e.1 {
            Some(c) => if is_md_file_name(e.0@) && parse_note_outcome(c@) is Ok {
                p.push(parse_note_outcome(c@)->Ok_0)
            } else {
                p
            },
            None => p,
        }
    }
}

/// The notes of a directory listing: `entries` holds each entry's file name
/// and its content, or `None` when it could not be read.
pub fn notes_of_listing(entries: Vec<(String, Option<String>)>) -> (r: Vec<Note>)
    ensures
        r@.map_values(|n: Note| n@) == listed_notes(entries@),
{
    let mut out: Vec<Note> = Vec::new();
    let mut i: usize = 0;
    while i < entries.len()
        invariant
            i <= entries.len(),
            out@.map_values(|n: Note| n@) == listed_notes(entries@.subrange(0, i as int)),
        decreases entries.len() - i,
    {
        let ghost before = out@;
        assert(entries@.subrange(0, i + 1).drop_last() =~= entries@.subrange(0, i as int));
        assert(entries@.subrange(0, i + 1).last() == entries@[i as int]);
        if has_md_extension(entries[i].0.as_str()) {
            match &entries[i].1 {
                Some(c) => match parse_note_md(c.as_str()) {
                    Ok(note) => {
                        out.push(note);
                        assert(out@.map_values(|n: Note| n@) =~= before.map_values(|n: Note| n@).push(
                            out@[out@.len() - 1]@,
                        ));
                    },
                    Err(_) => {},
                },
                None => {},
            }
        }
        i = i + 1;
    }
    assert(entries@.subrange(0, entries@.len() as int) =~= entries@);
    out
}

/// Notes stored as `.md` files in one directory.
pub struct FsNoteRepository {
    storage_dir: String,
}

impl View for FsNoteRepository {
    /// The storage directory.
    type V = Seq<char>;

    closed spec fn view(&self) -> Seq<char> {
        self.storage_dir@
    }
}

impl FsNoteRepository {
    pub fn new(storage_dir: String) -> (r: FsNoteRepository)
        ensures
            r@ == storage_dir@,
    {
        FsNoteRepository { storage_dir }
    }

    pub fn storage_dir(&self) -> (r: &str)
        ensures
            r@ == self@,
    {
        self.storage_dir.as_str()
    }

    /// `<storage_dir>/<id>.md`.
    pub fn note_path(&self, id: &NoteId) -> (r: String)
        ensures
            is_path_in(r@, self@, md_file_name(id@)),
    {
        id.md_path_in(self.storage_dir.as_str())
    }
}

// ----- writing then reading -----

/// A tag name that a file gives back unchanged: `Tag::new` returns it as it
/// is, and it holds no character that splits lines or the tag list.
pub open spec fn is_stable_tag_name(n: Seq<char>) -> bool {
    tag_new_outcome(n) == Ok::<Seq<char>, bool>(n) && !has_forbidden_tag_char(n)
}

proof fn lemma_no_forbidden(n: Seq<char>, k: int)
    requires
        !has_forbidden_tag_char(n),
        0 <= k < n.len(),
    ensures
        n[k] != ',' && n[k] != '\n',
{
    if n[k] == ',' || n[k] == '\n' {
        assert(is_forbidden_tag_char(n[k]));
    }
}

proof fn lemma_line_split(line: Seq<char>, rest: Seq<char>)
    requires
        forall|k: int| 0 <= k < line.len() ==> #[trigger] line[k] != '\n',
    ensures
        first_index_of(text_line(line) + rest, '\n') == line.len(),
        (text_line(line) + rest).subrange(0, line.len() as int) == line,
        rest_after_line(text_line(line) + rest) == rest,
{
    let s = text_line(line) + rest;
    let b = seq!['\n'] + rest;
    assert(s =~= line + b);
    lemma_first_index_concat(line, b, '\n');
    assert(b[0] == '\n');
    assert(first_index_of(b, '\n') == 0);
    assert(s.subrange(0, line.len() as int) =~= line);
    assert(s.subrange(line.len() + 1int, s.len() as int) =~= rest);
}

proof fn lemma_scan_line(line: Seq<char>, rest: Seq<char>, fm: FrontmatterFields)
    requires
        forall|k: int| 0 <= k < line.len() ==> #[trigger] line[k] != '\n',
        line != "---"@,
    ensures
        scan_frontmatter(text_line(line) + rest, fm) == match read_field(line, fm) {
            Err(x) => Err(x),
            Ok(fm2) => scan_frontmatter(rest, fm2),
        },
{
    lemma_line_split(line, rest);
    assert((text_line(line) + rest).len() > 0);
}

proof fn lemma_scan_close(rest: Seq<char>, fm: FrontmatterFields)
    ensures
        scan_frontmatter(text_line("---"@) + rest, fm) == Ok::<(FrontmatterFields, Seq<char>), ParseFailure>(
            (fm, rest),
        ),
{
    reveal_strlit("---");
    lemma_line_split("---"@, rest);
    assert((text_line("---"@) + rest).len() > 0);
}

proof fn lemma_key_value(key: Seq<char>, value: Seq<char>)
    requires
        key.len() > 0,
        !is_white_space(key[0]),
        !is_white_space(key[key.len() - 1]),
        forall|k: int| 0 <= k < key.len() ==> #[trigger] key[k] != ':',
        value.len() > 0,
        !is_white_space(value[0]),
        !is_white_space(value[value.len() - 1]),
    ensures
        first_index_of(key + ": "@ + value, ':') == key.len(),
        spec_trim((key + ": "@ + value).subrange(0, key.len() as int)) == key,
        spec_trim(
            (key + ": "@ + value).subrange(key.len() + 1int, (key + ": "@ + value).len() as int),
        ) == value,
{
    reveal_strlit(": ");
    let line = key + ": "@ + value;
    let b = ": "@ + value;
    assert(line =~= key + b);
    lemma_first_index_concat(key, b, ':');
    assert(b[0] == ':');
    assert(first_index_of(b, ':') == 0);
    assert(line.subrange(0, key.len() as int) =~= key);
    lemma_trim_fixed(key);
    let sp = seq![' '];
    assert(line.subrange(key.len() + 1int, line.len() as int) =~= sp + value);
    assert(is_white_space(sp[0]));
    lemma_trim_ws_prefix(sp, value);
    lemma_trim_fixed(value);
}

proof fn lemma_compact_plain(f: TimeFields)
    requires
        valid_time_fields(f),
    ensures
        compact_text(f).len() > 0,
        !is_white_space(compact_text(f)[0]),
        !is_white_space(compact_text(f)[compact_text(f).len() - 1]),
        forall|k: int| 0 <= k < compact_text(f).len() ==> #[trigger] compact_text(f)[k] != '\n',
{
    lemma_compact_text_chars(f);
    let c = compact_text(f);
    assert forall|k: int| 0 <= k < c.len() implies #[trigger] c[k] != '\n' && !is_white_space(c[k]) by {
        assert(is_ascii_digit(c[k]) || c[k] == '-');
    }
    assert(!is_white_space(c[0]));
    assert(!is_white_space(c[c.len() - 1]));
}

proof fn lemma_read_created(c: TimeFields, fm: FrontmatterFields)
    requires
        valid_time_fields(c),
    ensures
        read_field("createdAt: "@ + compact_text(c), fm) == Ok::<FrontmatterFields, ParseFailure>(
            (Some(c), fm.1, fm.2),
        ),
{
    reveal_strlit("createdAt: ");
    reveal_strlit("createdAt");
    reveal_strlit(": ");
    let key = "createdAt"@;
    assert("createdAt: "@ =~= key + ": "@);
    assert("createdAt: "@ + compact_text(c) =~= key + ": "@ + compact_text(c));
    lemma_compact_plain(c);
    lemma_key_value(key, compact_text(c));
    lemma_compact_roundtrip(c);
}

proof fn lemma_read_updated(u: TimeFields, fm: FrontmatterFields)
    requires
        valid_time_fields(u),
    ensures
        read_field("updatedAt: "@ + compact_text(u), fm) == Ok::<FrontmatterFields, ParseFailure>(
            (fm.0, Some(u), fm.2),
        ),
{
    reveal_strlit("updatedAt: ");
    reveal_strlit("updatedAt");
    reveal_strlit("createdAt");
    reveal_strlit(": ");
    let key = "updatedAt"@;
    assert("updatedAt: "@ =~= key + ": "@);
    assert("updatedAt: "@ + compact_text(u) =~= key + ": "@ + compact_text(u));
    assert(key[0] != "createdAt"@[0]);
    lemma_compact_plain(u);
    lemma_key_value(key, compact_text(u));
    lemma_compact_roundtrip(u);
}

proof fn lemma_joined_tail_plain(ns: Seq<Seq<char>>)
    requires
        forall|i: int| 0 <= i < ns.len() ==> !has_forbidden_tag_char(#[trigger] ns[i]),
    ensures
        forall|k: int| 0 <= k < joined_tail(ns).len() ==> #[trigger] joined_tail(ns)[k] != '\n',
    decreases ns.len(),
{
    reveal_strlit(", ");
    if ns.len() > 0 {
        let rest = ns.drop_first();
        assert forall|i: int| 0 <= i < rest.len() implies !has_forbidden_tag_char(#[trigger] rest[i]) by {
            assert(rest[i] == ns[i + 1]);
        }
        lemma_joined_tail_plain(rest);
        let j = joined_tail(ns);
        let n = ns[0];
        assert(!has_forbidden_tag_char(ns[0]));
        assert forall|k: int| 0 <= k < j.len() implies #[trigger] j[k] != '\n' by {
            if k >= 2 && k < 2 + n.len() {
                assert(j[k] == n[k - 2]);
                lemma_no_forbidden(n, k - 2);
            } else if k >= 2 + n.len() {
                assert(j[k] == joined_tail(rest)[k - 2 - n.len()]);
            }
        }
    }
}

proof fn lemma_inline_tags_joined(lead: Seq<char>, ns: Seq<Seq<char>>)
    requires
        ns.len() > 0,
        forall|i: int| 0 <= i < ns.len() ==> is_stable_tag_name(#[trigger] ns[i]),
        forall|k: int| 0 <= k < lead.len() ==> is_white_space(#[trigger] lead[k]) && lead[k] != ',',
    ensures
        inline_tags(lead + ns[0] + joined_tail(ns.drop_first())) == Ok::<Seq<Seq<char>>, Seq<char>>(
            ns,
        ),
    decreases ns.len(),
{
    reveal_strlit(", ");
    let n = ns[0];
    let rest = ns.drop_first();
    let a = lead + n;
    let s = a + joined_tail(rest);
    assert(is_stable_tag_name(n));
    assert forall|k: int| 0 <= k < a.len() implies #[trigger] a[k] != ',' by {
        if k < lead.len() {
            assert(a[k] == lead[k]);
        } else {
            assert(a[k] == n[k - lead.len()]);
            lemma_no_forbidden(n, k - lead.len());
        }
    }
    lemma_first_index_concat(a, joined_tail(rest), ',');
    if rest.len() > 0 {
        assert(joined_tail(rest)[0] == ',');
    } else {
        assert(joined_tail(rest) =~= Seq::<char>::empty());
    }
    assert(first_index_of(joined_tail(rest), ',') == 0);
    let e = a.len() as int;
    assert(s.subrange(0, e) =~= a);
    lemma_trim_ws_prefix(lead, n);
    lemma_trim_idempotent(n);
    assert(spec_trim(n).len() > 0);
    if rest.len() == 0 {
        assert(e == s.len());
        assert(seq![n] + Seq::<Seq<char>>::empty() =~= ns);
    } else {
        let lead2 = seq![' '];
        assert(is_white_space(lead2[0]));
        let s2 = s.subrange(e + 1, s.len() as int);
        assert(s2 =~= lead2 + rest[0] + joined_tail(rest.drop_first()));
        assert forall|i: int| 0 <= i < rest.len() implies is_stable_tag_name(#[trigger] rest[i]) by {
            assert(rest[i] == ns[i + 1]);
        }
        lemma_inline_tags_joined(lead2, rest);
        assert(seq![n] + rest =~= ns);
    }
}

proof fn lemma_read_tags(ns: Seq<Seq<char>>, fm: FrontmatterFields)
    requires
        forall|i: int| 0 <= i < ns.len() ==> is_stable_tag_name(#[trigger] ns[i]),
        no_duplicate_names(ns),
    ensures
        read_field("tags: ["@ + joined(ns) + "]"@, fm) == Ok::<FrontmatterFields, ParseFailure>(
            (fm.0, fm.1, Some(ns)),
        ),
{
    reveal_strlit("tags: [");
    reveal_strlit("tags");
    reveal_strlit("createdAt");
    reveal_strlit("updatedAt");
    reveal_strlit(": ");
    reveal_strlit("[");
    reveal_strlit("]");
    let key = "tags"@;
    let value = "["@ + joined(ns) + "]"@;
    assert("tags: ["@ + joined(ns) + "]"@ =~= key + ": "@ + value);
    assert(value[0] == '[');
    assert(value[value.len() - 1] == ']');
    lemma_key_value(key, value);
    assert(key.len() != "createdAt"@.len());
    assert(key.len() != "updatedAt"@.len());
    assert(value.subrange(1, value.len() - 1) =~= joined(ns));
    if ns.len() == 0 {
        assert(joined(ns) =~= Seq::<char>::empty());
        assert(spec_trim(Seq::<char>::empty()) =~= Seq::<char>::empty());
        assert(inline_tags(Seq::<char>::empty()) == Ok::<Seq<Seq<char>>, Seq<char>>(Seq::empty()));
        assert(ns =~= Seq::<Seq<char>>::empty());
    } else {
        assert(joined(ns) =~= Seq::<char>::empty() + ns[0] + joined_tail(ns.drop_first()));
        lemma_inline_tags_joined(Seq::<char>::empty(), ns);
    }
    lemma_dedup_first_unique(ns);
}

/// Writing a note and reading its file back gives the same note, when every
/// tag name is one that `Tag::new` gives back unchanged and that holds no
/// character splitting lines or the tag list.
pub proof fn lemma_note_file_roundtrip(v: NoteView)
    requires
        note_view_wf(v),
        forall|i: int| 0 <= i < v.tags.len() ==> is_stable_tag_name(#[trigger] v.tags[i]),
    ensures
        parse_note_outcome(note_file_text(v)) == Ok::<NoteView, ParseFailure>(v),
{
    reveal_strlit("---");
    reveal_strlit("createdAt: ");
    reveal_strlit("updatedAt: ");
    reveal_strlit("tags: [");
    reveal_strlit("]");
    let c = v.created_at;
    let u = v.updated_at;
    let l1 = "createdAt: "@ + compact_text(c);
    let l2 = "updatedAt: "@ + compact_text(u);
    let l3 = "tags: ["@ + joined(v.tags) + "]"@;
    let r4 = text_line("---"@) + v.body;
    let r3 = text_line(l3) + r4;
    let r2 = text_line(l2) + r3;
    let r1 = text_line(l1) + r2;
    let t = note_file_text(v);
    assert(t =~= text_line("---"@) + r1);
    lemma_compact_plain(c);
    lemma_compact_plain(u);
    assert forall|k: int| 0 <= k < l1.len() implies #[trigger] l1[k] != '\n' by {
        if k >= 11 {
            assert(l1[k] == compact_text(c)[k - 11]);
        }
    }
    assert forall|k: int| 0 <= k < l2.len() implies #[trigger] l2[k] != '\n' by {
        if k >= 11 {
            assert(l2[k] == compact_text(u)[k - 11]);
        }
    }
    assert forall|i: int| 0 <= i < v.tags.len() implies !has_forbidden_tag_char(#[trigger] v.tags[i]) by {
        assert(is_stable_tag_name(v.tags[i]));
    }
    let j = joined(v.tags);
    assert forall|k: int| 0 <= k < j.len() implies #[trigger] j[k] != '\n' by {
        lemma_joined_tail_plain(v.tags.drop_first());
        let n = v.tags[0];
        if k < n.len() {
            assert(j[k] == n[k]);
            lemma_no_forbidden(n, k);
        } else {
            assert(j[k] == joined_tail(v.tags.drop_first())[k - n.len()]);
        }
    }
    assert forall|k: int| 0 <= k < l3.len() implies #[trigger] l3[k] != '\n' by {
        if 7 <= k < 7 + j.len() {
            assert(l3[k] == j[k - 7]);
        }
    }
    assert(l1[0] != '-');
    assert(l2[0] != '-');
    assert(l3[0] != '-');
    lemma_line_split("---"@, r1);
    let f0: FrontmatterFields = (None, None, None);
    lemma_scan_line(l1, r2, f0);
    lemma_read_created(c, f0);
    let f1: FrontmatterFields = (Some(c), None, None);
    lemma_scan_line(l2, r3, f1);
    lemma_read_updated(u, f1);
    let f2: FrontmatterFields = (Some(c), Some(u), None);
    lemma_scan_line(l3, r4, f2);
    lemma_read_tags(v.tags, f2);
    lemma_scan_close(v.body, (Some(c), Some(u), Some(v.tags)));
}

} // verus!
