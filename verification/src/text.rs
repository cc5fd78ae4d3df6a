//! Character-level helpers shared by the domain types: Unicode white space,
//! trimming, lower-casing and string building.
use vstd::prelude::*;
use vstd::string::*;

verus! {

/// The Unicode `White_Space` property, the definition that `char::is_whitespace`
/// and `str::trim` use.
pub open spec fn is_white_space(c: char) -> bool {
    let u = c as u32;
    ||| 0x09 <= u <= 0x0d
    ||| u == 0x20
    ||| u == 0x85
    ||| u == 0xa0
    ||| u == 0x1680
    ||| 0x2000 <= u <= 0x200a
    ||| u == 0x2028
    ||| u == 0x2029
    ||| u == 0x202f
    ||| u == 0x205f
    ||| u == 0x3000
}

/// Index of the first character at or after `i` that is not white space
/// (or the length when there is none).
pub open spec fn skip_ws_from(s: Seq<char>, i: int) -> int
    decreases s.len() - i,
{
    if 0 <= i < s.len() && is_white_space(s[i]) {
        skip_ws_from(s, i + 1)
    } else {
        i
    }
}

/// Index just past the last character in `lo..j` that is not white space
/// (or `lo` when there is none).
pub open spec fn back_ws_from(s: Seq<char>, lo: int, j: int) -> int
    decreases j - lo,
{
    if lo < j && j <= s.len() && is_white_space(s[j - 1]) {
        back_ws_from(s, lo, j - 1)
    } else {
        j
    }
}

/// `s` without its leading and trailing white space.
pub open spec fn spec_trim(s: Seq<char>) -> Seq<char> {
    let lo = skip_ws_from(s, 0);
    s.subrange(lo, back_ws_from(s, lo, s.len() as int))
}

pub proof fn lemma_skip_ws_bounds(s: Seq<char>, i: int)
    requires
        0 <= i <= s.len(),
    ensures
        i <= skip_ws_from(s, i) <= s.len(),
        forall|k: int| i <= k < skip_ws_from(s, i) ==> is_white_space(#[trigger] s[k]),
        skip_ws_from(s, i) < s.len() ==> !is_white_space(s[skip_ws_from(s, i)]),
    decreases s.len() - i,
{
    if i < s.len() && is_white_space(s[i]) {
        lemma_skip_ws_bounds(s, i + 1);
    }
}

pub proof fn lemma_back_ws_bounds(s: Seq<char>, lo: int, j: int)
    requires
        0 <= lo <= j <= s.len(),
    ensures
        lo <= back_ws_from(s, lo, j) <= j,
        forall|k: int| back_ws_from(s, lo, j) <= k < j ==> is_white_space(#[trigger] s[k]),
        back_ws_from(s, lo, j) > lo ==> !is_white_space(s[back_ws_from(s, lo, j) - 1]),
    decreases j - lo,
{
    if lo < j && is_white_space(s[j - 1]) {
        lemma_back_ws_bounds(s, lo, j - 1);
    }
}

/// The trimmed string is empty exactly when every character is white space.
pub proof fn lemma_trim_empty_iff_all_ws(s: Seq<char>)
    ensures
        spec_trim(s).len() == 0 <==> forall|k: int| 0 <= k < s.len() ==> is_white_space(#[trigger] s[k]),
{
    lemma_skip_ws_bounds(s, 0);
    let lo = skip_ws_from(s, 0);
    lemma_back_ws_bounds(s, lo, s.len() as int);
}

/// A string with no white space at either end is its own trim.
pub proof fn lemma_trim_fixed(s: Seq<char>)
    requires
        s.len() > 0 ==> !is_white_space(s[0]) && !is_white_space(s[s.len() - 1]),
    ensures
        spec_trim(s) == s,
{
    assert(skip_ws_from(s, 0) == 0);
    assert(back_ws_from(s, 0, s.len() as int) == s.len());
    assert(s.subrange(0, s.len() as int) =~= s);
}

/// Trimming twice cuts no more than trimming once.
pub proof fn lemma_trim_idempotent(s: Seq<char>)
    ensures
        spec_trim(spec_trim(s)) == spec_trim(s),
{
    lemma_skip_ws_bounds(s, 0);
    let lo = skip_ws_from(s, 0);
    lemma_back_ws_bounds(s, lo, s.len() as int);
    let hi = back_ws_from(s, lo, s.len() as int);
    let t = spec_trim(s);
    if t.len() > 0 {
        assert(t[0] == s[lo]);
        assert(t[t.len() - 1] == s[hi - 1]);
    }
    lemma_trim_fixed(t);
}

/// Leading white space does not change the trimmed text.
pub proof fn lemma_trim_ws_prefix(w: Seq<char>, x: Seq<char>)
    requires
        forall|k: int| 0 <= k < w.len() ==> is_white_space(#[trigger] w[k]),
    ensures
        spec_trim(w + x) == spec_trim(x),
{
    let s = w + x;
    lemma_skip_in_ws_prefix(w, x, 0);
    lemma_skip_shift(w, x, 0);
    lemma_skip_ws_bounds(x, 0);
    let lo = skip_ws_from(x, 0);
    lemma_back_shift(w, x, lo, x.len() as int);
    lemma_back_ws_bounds(x, lo, x.len() as int);
    let hi = back_ws_from(x, lo, x.len() as int);
    assert(s.subrange(w.len() + lo, w.len() + hi) =~= x.subrange(lo, hi));
}

proof fn lemma_skip_in_ws_prefix(w: Seq<char>, x: Seq<char>, i: int)
    requires
        0 <= i <= w.len(),
        forall|k: int| 0 <= k < w.len() ==> is_white_space(#[trigger] w[k]),
    ensures
        skip_ws_from(w + x, i) == skip_ws_from(w + x, w.len() as int),
    decreases w.len() - i,
{
    if i < w.len() {
        assert((w + x)[i] == w[i]);
        lemma_skip_in_ws_prefix(w, x, i + 1);
    }
}

proof fn lemma_skip_shift(w: Seq<char>, x: Seq<char>, i: int)
    requires
        0 <= i <= x.len(),
    ensures
        skip_ws_from(w + x, w.len() + i) == w.len() + skip_ws_from(x, i),
    decreases x.len() - i,
{
    if i < x.len() {
        assert((w + x)[w.len() + i] == x[i]);
        lemma_skip_shift(w, x, i + 1);
    }
}

proof fn lemma_back_shift(w: Seq<char>, x: Seq<char>, lo: int, j: int)
    requires
        0 <= lo <= j <= x.len(),
    ensures
        back_ws_from(w + x, w.len() + lo, w.len() + j) == w.len() + back_ws_from(x, lo, j),
    decreases j - lo,
{
    if lo < j {
        assert((w + x)[w.len() + j - 1] == x[j - 1]);
        lemma_back_shift(w, x, lo, j - 1);
    }
}

/// Index of the first `c` in `s`, or `s.len()` when there is none.
pub open spec fn first_index_of(s: Seq<char>, c: char) -> int
    decreases s.len(),
{
    if s.len() == 0 {
        0
    } else if s[0] == c {
        0
    } else {
        1 + first_index_of(s.drop_first(), c)
    }
}

pub proof fn lemma_first_index_of(s: Seq<char>, c: char)
    ensures
        0 <= first_index_of(s, c) <= s.len(),
        forall|k: int| 0 <= k < first_index_of(s, c) ==> #[trigger] s[k] != c,
        first_index_of(s, c) < s.len() ==> s[first_index_of(s, c)] == c,
    decreases s.len(),
{
    if s.len() > 0 && s[0] != c {
        let t = s.drop_first();
        lemma_first_index_of(t, c);
        assert forall|k: int| 0 <= k < first_index_of(s, c) implies #[trigger] s[k] != c by {
            if k > 0 {
                assert(s[k] == t[k - 1]);
            }
        }
    }
}

/// The first index is the one position before which `c` does not occur and
/// at which it does (or the end).
pub proof fn lemma_first_index_unique(s: Seq<char>, c: char, e: int)
    requires
        0 <= e <= s.len(),
        forall|k: int| 0 <= k < e ==> #[trigger] s[k] != c,
        e < s.len() ==> s[e] == c,
    ensures
        first_index_of(s, c) == e,
{
    lemma_first_index_of(s, c);
}

/// Searching `a + b` for a character that `a` lacks lands in `b`.
pub proof fn lemma_first_index_concat(a: Seq<char>, b: Seq<char>, c: char)
    requires
        forall|k: int| 0 <= k < a.len() ==> #[trigger] a[k] != c,
    ensures
        first_index_of(a + b, c) == a.len() + first_index_of(b, c),
{
    lemma_first_index_of(b, c);
    let s = a + b;
    let e = a.len() + first_index_of(b, c);
    assert forall|k: int| 0 <= k < e implies #[trigger] s[k] != c by {
        if k >= a.len() {
            assert(s[k] == b[k - a.len()]);
        }
    }
    if e < s.len() {
        assert(s[e] == b[first_index_of(b, c)]);
    }
    lemma_first_index_unique(s, c, e);
}

/// Position of the first `c` in `v[lo..hi]`, or `hi`.
pub fn find_char(v: &Vec<char>, c: char, lo: usize, hi: usize) -> (e: usize)
    requires
        lo <= hi <= v.len(),
    ensures
        lo <= e <= hi,
        e - lo == first_index_of(v@.subrange(lo as int, hi as int), c),
{
    let mut i = lo;
    while i < hi && v[i] != c
        invariant
            lo <= i <= hi <= v.len(),
            forall|k: int| lo <= k < i ==> #[trigger] v@[k] != c,
        decreases hi - i,
    {
        i = i + 1;
    }
    proof {
        let s = v@.subrange(lo as int, hi as int);
        assert forall|k: int| 0 <= k < i - lo implies #[trigger] s[k] != c by {
            assert(s[k] == v@[lo + k]);
        }
        if i < hi {
            assert(s[i - lo] == v@[i as int]);
        }
        lemma_first_index_unique(s, c, i - lo);
    }
    i
}

/// Exactly `char::is_whitespace`.
pub fn char_is_whitespace(c: char) -> (b: bool)
    ensures
        b == is_white_space(c),
{
    let u = c as u32;
    (0x09 <= u && u <= 0x0d) || u == 0x20 || u == 0x85 || u == 0xa0 || u == 0x1680 || (0x2000
        <= u && u <= 0x200a) || u == 0x2028 || u == 0x2029 || u == 0x202f || u == 0x205f || u
        == 0x3000
}

/// The characters of `s`, in order.
pub fn chars_of(s: &str) -> (v: Vec<char>)
    ensures
        v@ == s@,
{
    let mut v: Vec<char> = Vec::new();
    let n = s.unicode_len();
    let mut i: usize = 0;
    while i < n
        invariant
            n == s@.len(),
            i <= n,
            v@ == s@.subrange(0, i as int),
        decreases n - i,
    {
        let c = s.get_char(i);
        v.push(c);
        i = i + 1;
        assert(v@ =~= s@.subrange(0, i as int));
    }
    assert(v@ =~= s@);
    v
}

/// Calls `String::push`; claimed, as its documentation says: `c` is
/// appended to `s`.
#[verifier::external_body]
pub(crate) fn push_char(s: &mut String, c: char)
    ensures
        final(s)@ == old(s)@.push(c),
{
    s.push(c);
}

/// Builds a string from the characters `v[lo..hi]`.
pub fn string_from_range(v: &Vec<char>, lo: usize, hi: usize) -> (s: String)
    requires
        lo <= hi <= v.len(),
    ensures
        s@ == v@.subrange(lo as int, hi as int),
{
    let mut s = String::new();
    let mut i = lo;
    while i < hi
        invariant
            lo <= i <= hi <= v.len(),
            s@ == v@.subrange(lo as int, i as int),
        decreases hi - i,
    {
        push_char(&mut s, v[i]);
        i = i + 1;
        assert(s@ =~= v@.subrange(lo as int, i as int));
    }
    s
}

/// Builds a string from all of `v`.
pub fn string_from_chars(v: &Vec<char>) -> (s: String)
    ensures
        s@ == v@,
{
    let s = string_from_range(v, 0, v.len());
    assert(v@.subrange(0, v@.len() as int) =~= v@);
    s
}

/// Whether two strings are equal.
pub fn str_eq(a: &str, b: &str) -> (r: bool)
    ensures
        r == (a@ == b@),
{
    a.to_owned() == b.to_owned()
}

/// Appends `t` to `s`.
pub fn push_str(s: &mut String, t: &str)
    ensures
        final(s)@ == old(s)@ + t@,
{
    s.append(t);
}

/// A new `String` holding `s`.
pub fn owned(s: &str) -> (r: String)
    ensures
        r@ == s@,
{
    let mut r = String::new();
    push_str(&mut r, s);
    r
}

/// Indices of the trimmed part of `v[lo..hi]` (as `str::trim` would cut it).
pub fn trim_bounds(v: &Vec<char>, lo: usize, hi: usize) -> (r: (usize, usize))
    requires
        lo <= hi <= v.len(),
    ensures
        v@.subrange(r.0 as int, r.1 as int) == spec_trim(v@.subrange(lo as int, hi as int)),
        lo <= r.0 <= r.1 <= hi,
{
    let ghost s = v@.subrange(lo as int, hi as int);
    let mut i = lo;
    while i < hi && char_is_whitespace(v[i])
        invariant
            lo <= i <= hi <= v.len(),
            s == v@.subrange(lo as int, hi as int),
            skip_ws_from(s, (i - lo) as int) == skip_ws_from(s, 0),
        decreases hi - i,
    {
        assert(s[(i - lo) as int] == v@[i as int]);
        i = i + 1;
    }
    proof {
        if i < hi {
            assert(s[(i - lo) as int] == v@[i as int]);
        }
        assert(skip_ws_from(s, (i - lo) as int) == (i - lo) as int);
    }
    let ghost slo = (i - lo) as int;
    let mut j = hi;
    while j > i && char_is_whitespace(v[j - 1])
        invariant
            lo <= i <= j <= hi <= v.len(),
            s == v@.subrange(lo as int, hi as int),
            slo == i - lo,
            back_ws_from(s, slo, (j - lo) as int) == back_ws_from(s, slo, s.len() as int),
        decreases j - i,
    {
        assert(s[(j - lo) - 1] == v@[j - 1]);
        j = j - 1;
    }
    proof {
        if j > i {
            assert(s[(j - lo) - 1] == v@[j - 1]);
        }
        assert(back_ws_from(s, slo, (j - lo) as int) == (j - lo) as int);
        assert(spec_trim(s) =~= v@.subrange(i as int, j as int));
    }
    (i, j)
}

/// `str::trim`: the string without leading and trailing white space.
pub fn trim(s: &str) -> (r: String)
    ensures
        r@ == spec_trim(s@),
{
    let v = chars_of(s);
    let (lo, hi) = trim_bounds(&v, 0, v.len());
    assert(v@.subrange(0, v@.len() as int) =~= v@);
    string_from_range(&v, lo, hi)
}

/// Whether `s` is empty or white space only (`s.trim().is_empty()`).
pub fn is_blank(s: &str) -> (r: bool)
    ensures
        r == (spec_trim(s@).len() == 0),
{
    let v = chars_of(s);
    let (lo, hi) = trim_bounds(&v, 0, v.len());
    assert(v@.subrange(0, v@.len() as int) =~= v@);
    lo == hi
}

/// What `str::to_lowercase` returns for a string: the Unicode lower-case
/// mapping of its characters.
pub uninterp spec fn spec_lowercase(s: Seq<char>) -> Seq<char>;

/// Calls `str::to_lowercase`. Claimed: the result is `spec_lowercase` of the
/// argument, a function of the argument alone; nothing else is claimed of the
/// Unicode case tables.
#[verifier::external_body]
pub(crate) fn to_lowercase(s: &str) -> (r: String)
    ensures
        r@ == spec_lowercase(s@),
{
    s.to_lowercase()
}

} // verus!
