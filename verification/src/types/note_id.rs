//! The identity of a note: its creation time as `YYYYMMDDhhmmss`.
use super::timestamp::{
    compact_text, four_digits, lemma_digit_char, two_digits, valid_time_fields,
    TimeFields, Timestamp,
};
use crate::paths::{is_path_in, is_plain_file_name, path_join};
use crate::text::push_str;
use vstd::prelude::*;

verus! {

/// The text of an id: the compact form of a real date-time.
pub open spec fn is_id_text(s: Seq<char>) -> bool {
    exists|f: TimeFields| valid_time_fields(f) && s == compact_text(f)
}

/// The file that holds the note with id text `id`.
pub open spec fn md_file_name(id: Seq<char>) -> Seq<char> {
    id + ".md"@
}

/// Characters that can occur in an id: ASCII digits and the year's sign.
pub open spec fn is_id_char(c: char) -> bool {
    (48 <= c as u32 <= 57) || c == '-'
}

proof fn lemma_digits_are_id_chars(n: int)
    requires
        0 <= n < 10000,
    ensures
        forall|i: int| 0 <= i < 4 ==> is_id_char(#[trigger] four_digits(n)[i]),
        n < 100 ==> forall|i: int| 0 <= i < 2 ==> is_id_char(#[trigger] two_digits(n)[i]),
{
    lemma_digit_char(n / 1000);
    lemma_digit_char((n / 100) % 10);
    lemma_digit_char((n / 10) % 10);
    lemma_digit_char(n % 10);
    if n < 100 {
        lemma_digit_char(n / 10);
    }
}

/// An id's file name is a plain file name.
pub proof fn lemma_md_file_name_plain(id: Seq<char>)
    requires
        is_id_text(id),
    ensures
        is_plain_file_name(md_file_name(id)),
{
    let f = choose|f: TimeFields| valid_time_fields(f) && id == compact_text(f);
    let ay = if f.0 < 0 {
        -f.0
    } else {
        f.0
    };
    lemma_digits_are_id_chars(ay);
    lemma_digits_are_id_chars(f.1);
    lemma_digits_are_id_chars(f.2);
    lemma_digits_are_id_chars(f.3);
    lemma_digits_are_id_chars(f.4);
    lemma_digits_are_id_chars(f.5);
    let y = if f.0 < 0 {
        seq!['-'] + four_digits(ay)
    } else {
        four_digits(ay)
    };
    assert forall|i: int| 0 <= i < y.len() implies is_id_char(#[trigger] y[i]) by {
        if f.0 < 0 && i > 0 {
            assert(y[i] == four_digits(ay)[i - 1]);
        }
    }
    assert forall|i: int| 0 <= i < id.len() implies is_id_char(#[trigger] id[i]) by {
        let a = y;
        let b = a + two_digits(f.1);
        let c = b + two_digits(f.2);
        let d = c + two_digits(f.3);
        let e = d + two_digits(f.4);
        assert(id == e + two_digits(f.5));
        if i < a.len() {
            assert(id[i] == a[i]);
        } else if i < b.len() {
            assert(id[i] == two_digits(f.1)[i - a.len()]);
        } else if i < c.len() {
            assert(id[i] == two_digits(f.2)[i - b.len()]);
        } else if i < d.len() {
            assert(id[i] == two_digits(f.3)[i - c.len()]);
        } else if i < e.len() {
            assert(id[i] == two_digits(f.4)[i - d.len()]);
        } else {
            assert(id[i] == two_digits(f.5)[i - e.len()]);
        }
    }
    let name = md_file_name(id);
    reveal_strlit(".md");
    assert forall|i: int| 0 <= i < name.len() implies !(#[trigger] name[i] == '/' || name[i] == '\\')
        && name[i] != ':' by {
        if i < id.len() {
            assert(name[i] == id[i]);
            assert(is_id_char(id[i]));
        } else {
            assert(name[i] == ".md"@[i - id.len()]);
        }
    }
}

#[derive(Debug, Hash)]
pub struct NoteId {
    text: String,
}

impl View for NoteId {
    type V = Seq<char>;

    closed spec fn view(&self) -> Seq<char> {
        self.text@
    }
}

impl Clone for NoteId {
    fn clone(&self) -> (r: Self)
        ensures
            r@ == self@,
    {
        proof {
            use_type_invariant(self);
        }
        NoteId { text: self.text.clone() }
    }
}

impl PartialEq for NoteId {
    fn eq(&self, other: &Self) -> (r: bool) {
        self.text == other.text
    }
}

impl Eq for NoteId {
}

impl vstd::std_specs::cmp::PartialEqSpecImpl for NoteId {
    open spec fn obeys_eq_spec() -> bool {
        true
    }

    open spec fn eq_spec(&self, other: &Self) -> bool {
        self@ == other@
    }
}

impl NoteId {
    /// An id is always the compact form of a real date-time.
    #[verifier::type_invariant]
    pub open spec fn inv(self) -> bool {
        is_id_text(self@)
    }

    /// The id of a note created at `ts`.
    pub fn from_timestamp(ts: Timestamp) -> (r: NoteId)
        ensures
            r@ == compact_text(ts@),
    {
        proof {
            use_type_invariant(&ts);
        }
        NoteId { text: ts.format_yyyymmddhhmmss() }
    }

    /// `<dir>/<id>.md`, the file that holds this note.
    pub fn md_path_in(&self, dir: &str) -> (r: String)
        ensures
            is_path_in(r@, dir@, md_file_name(self@)),
    {
        proof {
            use_type_invariant(self);
            lemma_md_file_name_plain(self@);
        }
        let mut name = self.text.clone();
        push_str(&mut name, ".md");
        path_join(dir, name.as_str())
    }

    pub fn as_str(&self) -> (r: &str)
        ensures
            r@ == self@,
    {
        self.text.as_str()
    }

    /// Whether two ids are the same.
    pub fn same_as(&self, other: &NoteId) -> (r: bool)
        ensures
            r == (self@ == other@),
    {
        self.text == other.text
    }
}

} // verus!
