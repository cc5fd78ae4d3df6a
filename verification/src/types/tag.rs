//! A normalized tag name (trimmed, free of forbidden characters, lower-cased).
use crate::text::{chars_of, lemma_trim_idempotent, push_str, spec_lowercase, spec_trim, string_from_range, to_lowercase, trim_bounds};
use vstd::prelude::*;

verus! {

/// A character that must not occur inside a tag name: space, tab, newline,
/// comma and square brackets.
pub open spec fn is_forbidden_tag_char(c: char) -> bool {
    c == ' ' || c == '\t' || c == '\n' || c == ',' || c == '[' || c == ']'
}

pub open spec fn has_forbidden_tag_char(t: Seq<char>) -> bool {
    exists|i: int| 0 <= i < t.len() && is_forbidden_tag_char(#[trigger] t[i])
}

/// Acceptable tag content before lower-casing: non-empty, already trimmed,
/// and without a forbidden character.
pub open spec fn acceptable_tag_content(t: Seq<char>) -> bool {
    t.len() > 0 && spec_trim(t) == t && !has_forbidden_tag_char(t)
}

/// A name that `Tag::new` can produce: the lower-case image of acceptable content.
pub open spec fn is_tag_name(n: Seq<char>) -> bool {
    exists|t: Seq<char>| acceptable_tag_content(t) && n == spec_lowercase(t)
}

/// Why a raw tag was refused.
#[derive(Debug, Clone, PartialEq, Eq)]
pub enum TagError {
    /// The trimmed input holds a forbidden character; `raw` is the input as given.
    InvalidChar { raw: String },
    /// Nothing is left after trimming.
    Empty,
}

/// The message of a tag error.
pub open spec fn tag_error_text(e: TagError) -> Seq<char> {
    match e {
        TagError::InvalidChar { raw } => "tag '"@ + raw@ + "' contains invalid character"@,
        TagError::Empty => "tag must not be empty after normalization"@,
    }
}

impl TagError {
    /// The human-readable message of the error.
    pub fn message(&self) -> (m: String)
        ensures
            m@ == tag_error_text(*self),
    {
        match self {
            TagError::InvalidChar { raw } => {
                let mut m = String::new();
                push_str(&mut m, "tag '");
                push_str(&mut m, raw.as_str());
                push_str(&mut m, "' contains invalid character");
                m
            },
            TagError::Empty => {
                let mut m = String::new();
                push_str(&mut m, "tag must not be empty after normalization");
                m
            },
        }
    }
}

/// A normalized tag.
#[derive(Debug, Hash)]
pub struct Tag {
    name: String,
}

impl View for Tag {
    type V = Seq<char>;

    closed spec fn view(&self) -> Seq<char> {
        self.name@
    }
}

impl Clone for Tag {
    fn clone(&self) -> (r: Self)
        ensures
            r@ == self@,
    {
        proof {
            use_type_invariant(self);
        }
        Tag { name: self.name.clone() }
    }
}

impl PartialEq for Tag {
    fn eq(&self, other: &Self) -> (r: bool) {
        self.name == other.name
    }
}

impl Eq for Tag {
}

impl vstd::std_specs::cmp::PartialEqSpecImpl for Tag {
    open spec fn obeys_eq_spec() -> bool {
        true
    }

    open spec fn eq_spec(&self, other: &Self) -> bool {
        self@ == other@
    }
}

/// What `Tag::new` decides for `raw`: `Ok` with the normalized name, or the error.
pub open spec fn tag_new_outcome(raw: Seq<char>) -> Result<Seq<char>, bool> {
    let t = spec_trim(raw);
    if t.len() == 0 {
        Err(true)
    } else if has_forbidden_tag_char(t) {
        Err(false)
    } else {
        Ok(spec_lowercase(t))
    }
}

/// `r` is what `Tag::new(raw)` returns: `Empty` when `raw` is white space
/// only, `InvalidChar` (carrying `raw`) when the trimmed text holds a forbidden
/// character, otherwise the lower-cased trimmed text.
pub open spec fn tag_new_spec(raw: Seq<char>, r: Result<Tag, TagError>) -> bool {
    match tag_new_outcome(raw) {
        Ok(n) => r matches Ok(tag) && tag@ == n,
        Err(true) => r matches Err(TagError::Empty),
        Err(false) => r matches Err(TagError::InvalidChar { raw: x }) && x@ == raw,
    }
}

/// `e` is the error `Tag::new(raw)` returns.
pub open spec fn tag_error_matches(raw: Seq<char>, e: TagError) -> bool {
    match tag_new_outcome(raw) {
        Err(true) => e is Empty,
        Err(false) => e matches TagError::InvalidChar { raw: x } && x@ == raw,
        Ok(_) => false,
    }
}

/// `Tag::new` refuses `raw`.
pub open spec fn tag_refused(raw: Seq<char>) -> bool {
    tag_new_outcome(raw) is Err
}

/// The name `Tag::new` makes of an accepted `raw`.
pub open spec fn normalized_name(raw: Seq<char>) -> Seq<char> {
    match tag_new_outcome(raw) {
        Ok(n) => n,
        Err(_) => Seq::empty(),
    }
}

/// The views of a list of strings.
pub open spec fn string_views(v: Seq<String>) -> Seq<Seq<char>> {
    v.map_values(|s: String| s@)
}

/// What parsing a list of raw tags gives: every tag normalized in order, or
/// the first refused raw tag with its error.
pub open spec fn parse_tags_spec(raws: Seq<Seq<char>>, r: Result<Vec<Tag>, (String, TagError)>) -> bool {
    match r {
        Ok(tags) => (forall|i: int| 0 <= i < raws.len() ==> !tag_refused(#[trigger] raws[i]))
            && tags@.len() == raws.len() && forall|i: int|
            0 <= i < raws.len() ==> #[trigger] tags@[i]@ == normalized_name(raws[i]),
        Err((raw, e)) => exists|i: int|
            0 <= i < raws.len() && tag_refused(#[trigger] raws[i]) && (forall|j: int|
                0 <= j < i ==> !tag_refused(#[trigger] raws[j])) && raw@ == raws[i]
                && tag_error_matches(raws[i], e),
    }
}

/// Parses each raw tag in order, stopping at the first refused one.
pub fn parse_raw_tags(raws: &Vec<String>) -> (r: Result<Vec<Tag>, (String, TagError)>)
    ensures
        parse_tags_spec(string_views(raws@), r),
{
    let ghost rv = string_views(raws@);
    let mut out: Vec<Tag> = Vec::new();
    let mut i: usize = 0;
    while i < raws.len()
        invariant
            i <= raws.len(),
            rv == string_views(raws@),
            out@.len() == i,
            forall|k: int| 0 <= k < i ==> !tag_refused(#[trigger] rv[k]),
            forall|k: int| 0 <= k < i ==> #[trigger] out@[k]@ == normalized_name(rv[k]),
        decreases raws.len() - i,
    {
        assert(rv[i as int] == raws@[i as int]@);
        match Tag::new(raws[i].as_str()) {
            Ok(t) => {
                out.push(t);
            },
            Err(e) => {
                let raw = raws[i].clone();
                assert(tag_refused(rv[i as int]));
                return Err((raw, e));
            },
        }
        i = i + 1;
    }
    Ok(out)
}

impl Tag {
    /// Every tag name is one that `Tag::new` produces.
    #[verifier::type_invariant]
    pub open spec fn inv(self) -> bool {
        is_tag_name(self@)
    }

    pub fn new(raw: &str) -> (r: Result<Tag, TagError>)
        ensures
            tag_new_spec(raw@, r),
            r matches Ok(tag) ==> is_tag_name(tag@),
    {
        let v = chars_of(raw);
        let (lo, hi) = trim_bounds(&v, 0, v.len());
        assert(v@.subrange(0, v@.len() as int) =~= v@);
        let ghost t = spec_trim(raw@);
        if lo == hi {
            return Err(TagError::Empty);
        }
        let mut i = lo;
        while i < hi
            invariant
                lo <= i <= hi <= v.len(),
                t == v@.subrange(lo as int, hi as int),
                t == spec_trim(raw@),
                forall|k: int| 0 <= k < i - lo ==> !is_forbidden_tag_char(#[trigger] t[k]),
            decreases hi - i,
        {
            let c = v[i];
            if c == ' ' || c == '\t' || c == '\n' || c == ',' || c == '[' || c == ']' {
                assert(t[i - lo] == c);
                assert(is_forbidden_tag_char(t[i - lo]));
                assert(has_forbidden_tag_char(t));
                return Err(TagError::InvalidChar { raw: raw.to_owned() });
            }
            assert(t[i - lo] == c);
            i = i + 1;
        }
        let trimmed = string_from_range(&v, lo, hi);
        let name = to_lowercase(trimmed.as_str());
        proof {
            lemma_trim_idempotent(raw@);
            assert(acceptable_tag_content(t));
        }
        Ok(Tag { name })
    }

    pub fn name(&self) -> (r: &str)
        ensures
            r@ == self@,
            is_tag_name(r@),
    {
        proof {
            use_type_invariant(self);
        }
        self.name.as_str()
    }
}

/// Surrounding white space never changes what `Tag::new` decides.
pub proof fn lemma_tag_ignores_surrounding_space(raw: Seq<char>)
    ensures
        tag_new_outcome(raw) == tag_new_outcome(spec_trim(raw)),
{
    lemma_trim_idempotent(raw);
}

} // verus!
