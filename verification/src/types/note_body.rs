//! The body text of a note: any text without a frontmatter delimiter line.
use crate::text::{chars_of, char_is_whitespace, is_white_space, push_str};
use vstd::prelude::*;

verus! {

/// A line that `trim_end` turns into `---`: three dashes, then white space only.
pub open spec fn is_delimiter_line(l: Seq<char>) -> bool {
    &&& l.len() >= 3
    &&& l[0] == '-' && l[1] == '-' && l[2] == '-'
    &&& forall|k: int| 3 <= k < l.len() ==> is_white_space(#[trigger] l[k])
}

/// `s[a..b]` is one line of `s`: a maximal run of characters other than `\n`.
pub open spec fn is_line_of(s: Seq<char>, a: int, b: int) -> bool {
    &&& 0 <= a <= b <= s.len()
    &&& a == 0 || s[a - 1] == '\n'
    &&& b == s.len() || s[b] == '\n'
    &&& forall|k: int| a <= k < b ==> #[trigger] s[k] != '\n'
}

/// Some line of `s` is a frontmatter delimiter line.
pub open spec fn has_delimiter_line(s: Seq<char>) -> bool {
    exists|a: int, b: int| is_line_of(s, a, b) && is_delimiter_line(#[trigger] s.subrange(a, b))
}

/// A valid note body.
pub open spec fn is_note_body(s: Seq<char>) -> bool {
    !has_delimiter_line(s)
}

#[derive(Debug, Clone, PartialEq, Eq)]
pub enum NoteBodyError {
    ContainsFrontmatterDelimiter,
}

impl NoteBodyError {
    pub fn message(&self) -> (m: String)
        ensures
            m@ == "note body must not contain a frontmatter delimiter line '---'"@,
    {
        let mut m = String::new();
        push_str(&mut m, "note body must not contain a frontmatter delimiter line '---'");
        m
    }
}

#[derive(Debug)]
pub struct NoteBody {
    text: String,
}

impl View for NoteBody {
    type V = Seq<char>;

    closed spec fn view(&self) -> Seq<char> {
        self.text@
    }
}

impl Clone for NoteBody {
    fn clone(&self) -> (r: Self)
        ensures
            r@ == self@,
    {
        proof {
            use_type_invariant(self);
        }
        NoteBody { text: self.text.clone() }
    }
}

impl PartialEq for NoteBody {
    fn eq(&self, other: &Self) -> (r: bool) {
        self.text == other.text
    }
}

impl Eq for NoteBody {
}

impl vstd::std_specs::cmp::PartialEqSpecImpl for NoteBody {
    open spec fn obeys_eq_spec() -> bool {
        true
    }

    open spec fn eq_spec(&self, other: &Self) -> bool {
        self@ == other@
    }
}

/// Whether `v[a..b]` is a delimiter line.
fn segment_is_delimiter(v: &Vec<char>, a: usize, b: usize) -> (r: bool)
    requires
        a <= b <= v.len(),
    ensures
        r == is_delimiter_line(v@.subrange(a as int, b as int)),
{
    let ghost l = v@.subrange(a as int, b as int);
    if b - a < 3 || v[a] != '-' || v[a + 1] != '-' || v[a + 2] != '-' {
        return false;
    }
    let mut k = a + 3;
    while k < b
        invariant
            a + 3 <= k <= b <= v.len(),
            l == v@.subrange(a as int, b as int),
            forall|j: int| 3 <= j < k - a ==> is_white_space(#[trigger] l[j]),
        decreases b - k,
    {
        assert(l[k - a] == v@[k as int]);
        if !char_is_whitespace(v[k]) {
            return false;
        }
        k = k + 1;
    }
    true
}

/// Whether some line of `v` is a delimiter line.
fn find_delimiter_line(v: &Vec<char>) -> (r: bool)
    ensures
        r == has_delimiter_line(v@),
{
    let ghost s = v@;
    let n = v.len();
    let mut a: usize = 0;
    loop
        invariant
            n == s.len(),
            s == v@,
            a <= n,
            a == 0 || s[a - 1] == '\n',
            forall|x: int, y: int|
                is_line_of(s, x, y) && x < a ==> !is_delimiter_line(#[trigger] s.subrange(x, y)),
        decreases n - a,
    {
        let mut b = a;
        while b < n && v[b] != '\n'
            invariant
                a <= b <= n,
                n == s.len(),
                s == v@,
                forall|k: int| a <= k < b ==> #[trigger] s[k] != '\n',
            decreases n - b,
        {
            b = b + 1;
        }
        assert(is_line_of(s, a as int, b as int));
        if segment_is_delimiter(v, a, b) {
            return true;
        }
        assert forall|x: int, y: int|
            is_line_of(s, x, y) && x < b + 1 implies !is_delimiter_line(
            #[trigger] s.subrange(x, y),
        ) by {
            if x >= a {
                if x > a {
                    assert(s[x - 1] != '\n');
                }
                if y < b {
                    assert(s[y] != '\n');
                }
                if y > b {
                    assert(s[b as int] != '\n');
                }
            }
        }
        if b == n {
            assert forall|x: int, y: int| is_line_of(s, x, y) implies !is_delimiter_line(
                #[trigger] s.subrange(x, y),
            ) by {
                assert(x < b + 1);
            }
            return false;
        }
        a = b + 1;
    }
}

impl NoteBody {
    /// A body never holds a delimiter line.
    #[verifier::type_invariant]
    pub open spec fn inv(self) -> bool {
        is_note_body(self@)
    }

    /// Accepts `raw` unless one of its lines is a frontmatter delimiter line.
    pub fn new(raw: String) -> (r: Result<NoteBody, NoteBodyError>)
        ensures
            has_delimiter_line(raw@) <==> r is Err,
            r matches Ok(b) ==> b@ == raw@,
    {
        let v = chars_of(raw.as_str());
        if find_delimiter_line(&v) {
            return Err(NoteBodyError::ContainsFrontmatterDelimiter);
        }
        Ok(NoteBody { text: raw })
    }

    pub fn as_str(&self) -> (r: &str)
        ensures
            r@ == self@,
    {
        self.text.as_str()
    }
}

} // verus!
