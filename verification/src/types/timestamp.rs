//! A second-precision UTC instant, kept as its calendar fields.
use crate::text::{chars_of, push_char, push_str};
use vstd::prelude::*;

verus! {

/// Calendar fields `(year, month, day, hour, minute, second)`.
pub type TimeFields = (int, int, int, int, int, int);

/// Leap years of the proleptic Gregorian calendar.
pub open spec fn is_leap_year(y: int) -> bool {
    y % 4 == 0 && (y % 100 != 0 || y % 400 == 0)
}

pub open spec fn days_in_month(y: int, m: int) -> int {
    if m == 2 {
        if is_leap_year(y) {
            29
        } else {
            28
        }
    } else if m == 4 || m == 6 || m == 9 || m == 11 {
        30
    } else {
        31
    }
}

/// A date that `time::Date::from_calendar_date` accepts (years -9999..=9999).
pub open spec fn valid_calendar_date(y: int, m: int, d: int) -> bool {
    -9999 <= y <= 9999 && 1 <= m <= 12 && 1 <= d <= days_in_month(y, m)
}

pub open spec fn valid_time_fields(f: TimeFields) -> bool {
    valid_calendar_date(f.0, f.1, f.2) && 0 <= f.3 < 24 && 0 <= f.4 < 60 && 0 <= f.5 < 60
}

/// `a` is not later than `b`.
pub open spec fn fields_le(a: TimeFields, b: TimeFields) -> bool {
    ||| a.0 < b.0
    ||| a.0 == b.0 && a.1 < b.1
    ||| a.0 == b.0 && a.1 == b.1 && a.2 < b.2
    ||| a.0 == b.0 && a.1 == b.1 && a.2 == b.2 && a.3 < b.3
    ||| a.0 == b.0 && a.1 == b.1 && a.2 == b.2 && a.3 == b.3 && a.4 < b.4
    ||| a.0 == b.0 && a.1 == b.1 && a.2 == b.2 && a.3 == b.3 && a.4 == b.4 && a.5 <= b.5
}

pub open spec fn is_ascii_digit(c: char) -> bool {
    48 <= c as u32 <= 57
}

pub open spec fn digit_value(c: char) -> int {
    c as u32 - 48
}

pub open spec fn digit_char(d: int) -> char {
    (d + 48) as char
}

/// `n` (0..=99) as two digits.
pub open spec fn two_digits(n: int) -> Seq<char> {
    seq![digit_char(n / 10), digit_char(n % 10)]
}

/// `n` (0..=9999) as four digits.
pub open spec fn four_digits(n: int) -> Seq<char> {
    seq![digit_char(n / 1000), digit_char((n / 100) % 10), digit_char((n / 10) % 10), digit_char(n % 10)]
}

/// The year as `[year]` writes it: a `-` for negative years, then four digits.
pub open spec fn year_text(y: int) -> Seq<char> {
    if y < 0 {
        seq!['-'] + four_digits(-y)
    } else {
        four_digits(y)
    }
}

/// `YYYYMMDDhhmmss`.
pub open spec fn compact_text(f: TimeFields) -> Seq<char> {
    year_text(f.0) + two_digits(f.1) + two_digits(f.2) + two_digits(f.3) + two_digits(f.4)
        + two_digits(f.5)
}

/// RFC 3339 in UTC with whole seconds: `YYYY-MM-DDThh:mm:ssZ`.
pub open spec fn rfc3339_text(f: TimeFields) -> Seq<char> {
    four_digits(f.0) + seq!['-'] + two_digits(f.1) + seq!['-'] + two_digits(f.2) + seq!['T']
        + two_digits(f.3) + seq![':'] + two_digits(f.4) + seq![':'] + two_digits(f.5) + seq!['Z']
}

pub open spec fn two_value(s: Seq<char>, a: int) -> int {
    10 * digit_value(s[a]) + digit_value(s[a + 1])
}

pub open spec fn four_value(s: Seq<char>, a: int) -> int {
    1000 * digit_value(s[a]) + 100 * digit_value(s[a + 1]) + 10 * digit_value(s[a + 2])
        + digit_value(s[a + 3])
}

/// The fields that `YYYYMMDDhhmmss` parsing reads from `s`, if `s` has the
/// right shape: an optional sign, then exactly fourteen ASCII digits.
pub open spec fn has_sign(s: Seq<char>) -> bool {
    s.len() > 0 && (s[0] == '+' || s[0] == '-')
}

/// The text after the optional sign.
pub open spec fn unsigned_part(s: Seq<char>) -> Seq<char> {
    if has_sign(s) {
        s.drop_first()
    } else {
        s
    }
}

pub open spec fn all_ascii_digits(d: Seq<char>) -> bool {
    forall|i: int| 0 <= i < d.len() ==> is_ascii_digit(#[trigger] d[i])
}

pub open spec fn compact_fields(s: Seq<char>) -> Option<TimeFields> {
    let signed = has_sign(s);
    let d = unsigned_part(s);
    if d.len() == 14 && all_ascii_digits(d) {
        let y = four_value(d, 0);
        Some(
            (
                if signed && s[0] == '-' {
                    -y
                } else {
                    y
                },
                two_value(d, 4),
                two_value(d, 6),
                two_value(d, 8),
                two_value(d, 10),
                two_value(d, 12),
            ),
        )
    } else {
        None
    }
}

/// What parsing `s` as `YYYYMMDDhhmmss` yields: the fields when the shape is
/// right and they name a real date and time of day.
pub open spec fn parse_compact(s: Seq<char>) -> Option<TimeFields> {
    match compact_fields(s) {
        Some(f) => if valid_time_fields(f) {
            Some(f)
        } else {
            None
        },
        None => None,
    }
}

pub proof fn lemma_digit_char(d: int)
    requires
        0 <= d < 10,
    ensures
        is_ascii_digit(digit_char(d)),
        digit_value(digit_char(d)) == d,
        digit_char(d) != '+' && digit_char(d) != '-',
{
    assert((d + 48) as char as u32 == d + 48);
}

pub proof fn lemma_two_digits(n: int)
    requires
        0 <= n < 100,
    ensures
        two_digits(n).len() == 2,
        all_ascii_digits(two_digits(n)),
        two_value(two_digits(n), 0) == n,
{
    lemma_digit_char(n / 10);
    lemma_digit_char(n % 10);
}

pub proof fn lemma_four_digits(n: int)
    requires
        0 <= n < 10000,
    ensures
        four_digits(n).len() == 4,
        all_ascii_digits(four_digits(n)),
        four_value(four_digits(n), 0) == n,
        four_digits(n)[0] != '+' && four_digits(n)[0] != '-',
{
    lemma_digit_char(n / 1000);
    lemma_digit_char((n / 100) % 10);
    lemma_digit_char((n / 10) % 10);
    lemma_digit_char(n % 10);
    assert(1000 * (n / 1000) + 100 * ((n / 100) % 10) + 10 * ((n / 10) % 10) + n % 10 == n)
        by (nonlinear_arith)
        requires
            0 <= n < 10000,
    ;
}

/// Reading back what `compact_text` wrote gives the same fields.
pub proof fn lemma_compact_roundtrip(f: TimeFields)
    requires
        valid_time_fields(f),
    ensures
        parse_compact(compact_text(f)) == Some(f),
{
    let s = compact_text(f);
    let ay = if f.0 < 0 {
        -f.0
    } else {
        f.0
    };
    lemma_four_digits(ay);
    lemma_two_digits(f.1);
    lemma_two_digits(f.2);
    lemma_two_digits(f.3);
    lemma_two_digits(f.4);
    lemma_two_digits(f.5);
    let d = four_digits(ay) + two_digits(f.1) + two_digits(f.2) + two_digits(f.3) + two_digits(
        f.4,
    ) + two_digits(f.5);
    if f.0 < 0 {
        assert(s =~= seq!['-'] + d);
        assert(has_sign(s));
        assert(unsigned_part(s) =~= d);
    } else {
        assert(s =~= d);
        assert(!has_sign(s));
    }
    assert(unsigned_part(s) == d);
    assert(d.len() == 14);
    assert forall|i: int| 0 <= i < d.len() implies is_ascii_digit(#[trigger] d[i]) by {
        if i < 4 {
            assert(d[i] == four_digits(ay)[i]);
        } else if i < 6 {
            assert(d[i] == two_digits(f.1)[i - 4]);
        } else if i < 8 {
            assert(d[i] == two_digits(f.2)[i - 6]);
        } else if i < 10 {
            assert(d[i] == two_digits(f.3)[i - 8]);
        } else if i < 12 {
            assert(d[i] == two_digits(f.4)[i - 10]);
        } else {
            assert(d[i] == two_digits(f.5)[i - 12]);
        }
    }
    assert(four_value(d, 0) == four_value(four_digits(ay), 0));
    assert(two_value(d, 4) == two_value(two_digits(f.1), 0));
    assert(two_value(d, 6) == two_value(two_digits(f.2), 0));
    assert(two_value(d, 8) == two_value(two_digits(f.3), 0));
    assert(two_value(d, 10) == two_value(two_digits(f.4), 0));
    assert(two_value(d, 12) == two_value(two_digits(f.5), 0));
}

/// `compact_text` writes ASCII digits and at most a leading `-`.
pub proof fn lemma_compact_text_chars(f: TimeFields)
    requires
        valid_time_fields(f),
    ensures
        compact_text(f).len() > 0,
        forall|i: int|
            0 <= i < compact_text(f).len() ==> is_ascii_digit(#[trigger] compact_text(f)[i])
                || compact_text(f)[i] == '-',
        is_ascii_digit(compact_text(f)[compact_text(f).len() - 1]),
{
    let s = compact_text(f);
    let ay = if f.0 < 0 {
        -f.0
    } else {
        f.0
    };
    lemma_four_digits(ay);
    lemma_two_digits(f.1);
    lemma_two_digits(f.2);
    lemma_two_digits(f.3);
    lemma_two_digits(f.4);
    lemma_two_digits(f.5);
    let d = four_digits(ay) + two_digits(f.1) + two_digits(f.2) + two_digits(f.3) + two_digits(
        f.4,
    ) + two_digits(f.5);
    assert forall|i: int| 0 <= i < d.len() implies is_ascii_digit(#[trigger] d[i]) by {
        if i < 4 {
            assert(d[i] == four_digits(ay)[i]);
        } else if i < 6 {
            assert(d[i] == two_digits(f.1)[i - 4]);
        } else if i < 8 {
            assert(d[i] == two_digits(f.2)[i - 6]);
        } else if i < 10 {
            assert(d[i] == two_digits(f.3)[i - 8]);
        } else if i < 12 {
            assert(d[i] == two_digits(f.4)[i - 10]);
        } else {
            assert(d[i] == two_digits(f.5)[i - 12]);
        }
    }
    if f.0 < 0 {
        assert(s =~= seq!['-'] + d);
        assert forall|i: int| 0 <= i < s.len() implies is_ascii_digit(#[trigger] s[i]) || s[i] == '-' by {
            if i > 0 {
                assert(s[i] == d[i - 1]);
            }
        }
    } else {
        assert(s =~= d);
    }
    assert(s[s.len() - 1] == d[13]);
}

/// Calls `time::Date::from_calendar_date`; claimed, as its documentation and
/// source show: the date is accepted exactly when the year lies in
/// -9999..=9999, the month in 1..=12 and the day in the month's length.
#[verifier::external_body]
fn calendar_date_exists(year: i32, month: u8, day: u8) -> (r: bool)
    ensures
        r == valid_calendar_date(year as int, month as int, day as int),
{
    match time::Month::try_from(month) {
        Ok(m) => time::Date::from_calendar_date(year, m, day).is_ok(),
        Err(_) => false,
    }
}

/// Calls `OffsetDateTime::format(&Rfc3339)` on the UTC date-time with these
/// fields; claimed: for a year in 0..=9999 the text is `YYYY-MM-DDThh:mm:ssZ`
/// (the formatter writes `Z` for the UTC offset and no fraction for zero
/// nanoseconds).
#[verifier::external_body]
fn format_rfc3339_fields(year: i32, month: u8, day: u8, hour: u8, minute: u8, second: u8) -> (r:
    String)
    requires
        valid_time_fields((year as int, month as int, day as int, hour as int, minute as int, second as int)),
        0 <= year,
    ensures
        r@ == rfc3339_text((year as int, month as int, day as int, hour as int, minute as int, second as int)),
{
    let date = time::Date::from_calendar_date(year, time::Month::try_from(month).unwrap(), day).unwrap();
    let t = time::Time::from_hms(hour, minute, second).unwrap();
    date.with_time(t).assume_utc().format(&time::format_description::well_known::Rfc3339).unwrap()
}

/// Why a `YYYYMMDDhhmmss` string was refused; holds the string.
#[derive(Debug, Clone, PartialEq, Eq)]
pub enum TimestampError {
    InvalidFormat(String),
}

impl TimestampError {
    pub fn message(&self) -> (m: String)
        ensures
            match self {
                TimestampError::InvalidFormat(s) => m@ == "timestamp string '"@ + s@
                    + "' does not match YYYYMMDDhhmmss"@,
            },
    {
        match self {
            TimestampError::InvalidFormat(s) => {
                let mut m = String::new();
                push_str(&mut m, "timestamp string '");
                push_str(&mut m, s.as_str());
                push_str(&mut m, "' does not match YYYYMMDDhhmmss");
                m
            },
        }
    }
}

/// A UTC instant with whole seconds.
#[derive(Debug, Clone, Copy, PartialEq, Eq, Structural, PartialOrd, Ord, Hash)]
pub struct Timestamp {
    year: i32,
    month: u8,
    day: u8,
    hour: u8,
    minute: u8,
    second: u8,
}

impl View for Timestamp {
    type V = TimeFields;

    closed spec fn view(&self) -> TimeFields {
        (
            self.year as int,
            self.month as int,
            self.day as int,
            self.hour as int,
            self.minute as int,
            self.second as int,
        )
    }
}

fn push_digit(s: &mut String, d: u32)
    requires
        d < 10,
    ensures
        final(s)@ == old(s)@.push(digit_char(d as int)),
{
    let c = ((d + 48) as u8) as char;
    assert(c == digit_char(d as int));
    push_char(s, c);
}

fn push_two(s: &mut String, n: u32)
    requires
        n < 100,
    ensures
        final(s)@ == old(s)@ + two_digits(n as int),
{
    push_digit(s, n / 10);
    push_digit(s, n % 10);
    assert(s@ =~= old(s)@ + two_digits(n as int));
}

fn push_four(s: &mut String, n: u32)
    requires
        n < 10000,
    ensures
        final(s)@ == old(s)@ + four_digits(n as int),
{
    push_digit(s, n / 1000);
    push_digit(s, (n / 100) % 10);
    push_digit(s, (n / 10) % 10);
    push_digit(s, n % 10);
    assert(s@ =~= old(s)@ + four_digits(n as int));
}

fn digit_at(v: &Vec<char>, i: usize) -> (r: Option<u32>)
    requires
        i < v.len(),
    ensures
        r is Some <==> is_ascii_digit(v@[i as int]),
        r matches Some(d) ==> d == digit_value(v@[i as int]) && d < 10,
{
    let c = v[i] as u32;
    if 48 <= c && c <= 57 {
        Some(c - 48)
    } else {
        None
    }
}

impl Timestamp {
    /// Every timestamp names a real date and time of day.
    #[verifier::type_invariant]
    pub open spec fn inv(self) -> bool {
        valid_time_fields(self@)
    }

    /// The timestamp with these calendar fields, if they name a real date and
    /// time of day.
    pub fn from_parts(year: i32, month: u8, day: u8, hour: u8, minute: u8, second: u8) -> (r:
        Option<Timestamp>)
        ensures
            r is Some <==> valid_time_fields(
                (year as int, month as int, day as int, hour as int, minute as int, second as int),
            ),
            r matches Some(t) ==> t@ == (
                year as int,
                month as int,
                day as int,
                hour as int,
                minute as int,
                second as int,
            ),
    {
        if hour < 24 && minute < 60 && second < 60 && calendar_date_exists(year, month, day) {
            Some(Timestamp { year, month, day, hour, minute, second })
        } else {
            None
        }
    }

    pub fn year(&self) -> (r: i32)
        ensures
            r == self@.0,
    {
        self.year
    }

    pub fn month(&self) -> (r: u8)
        ensures
            r == self@.1,
    {
        self.month
    }

    pub fn day(&self) -> (r: u8)
        ensures
            r == self@.2,
    {
        self.day
    }

    pub fn hour(&self) -> (r: u8)
        ensures
            r == self@.3,
    {
        self.hour
    }

    pub fn minute(&self) -> (r: u8)
        ensures
            r == self@.4,
    {
        self.minute
    }

    pub fn second(&self) -> (r: u8)
        ensures
            r == self@.5,
    {
        self.second
    }

    /// `YYYYMMDDhhmmss`, the form used for note ids and file names.
    pub fn format_yyyymmddhhmmss(&self) -> (r: String)
        ensures
            r@ == compact_text(self@),
    {
        proof {
            use_type_invariant(self);
        }
        let mut s = String::new();
        if self.year < 0 {
            push_char(&mut s, '-');
            push_four(&mut s, (-self.year) as u32);
        } else {
            push_four(&mut s, self.year as u32);
        }
        push_two(&mut s, self.month as u32);
        push_two(&mut s, self.day as u32);
        push_two(&mut s, self.hour as u32);
        push_two(&mut s, self.minute as u32);
        push_two(&mut s, self.second as u32);
        s
    }

    /// RFC 3339 (`YYYY-MM-DDThh:mm:ssZ`), the form sent to the user interface.
    /// The formatter refuses years before 0, so those are excluded.
    pub fn format_rfc3339(&self) -> (r: String)
        requires
            self@.0 >= 0,
        ensures
            r@ == rfc3339_text(self@),
    {
        proof {
            use_type_invariant(self);
        }
        format_rfc3339_fields(self.year, self.month, self.day, self.hour, self.minute, self.second)
    }

    /// Parses `YYYYMMDDhhmmss` (with an optional leading sign on the year) as
    /// a UTC instant.
    pub fn parse_yyyymmddhhmmss(s: &str) -> (r: Result<Timestamp, TimestampError>)
        ensures
            match parse_compact(s@) {
                Some(f) => r matches Ok(t) && t@ == f,
                None => r matches Err(TimestampError::InvalidFormat(x)) && x@ == s@,
            },
    {
        let v = chars_of(s);
        let ghost sv = v@;
        let n = v.len();
        let mut start: usize = 0;
        let mut negative = false;
        if n > 0 && (v[0] == '+' || v[0] == '-') {
            start = 1;
            negative = v[0] == '-';
        }
        let ghost d = if start == 1 {
            sv.drop_first()
        } else {
            sv
        };
        assert(d =~= sv.subrange(start as int, n as int));
        if n - start != 14 {
            return Err(TimestampError::InvalidFormat(s.to_owned()));
        }
        let mut vals: Vec<u32> = Vec::new();
        let mut i: usize = 0;
        while i < 14
            invariant
                n - start == 14,
                start <= 1,
                n == v.len(),
                d == sv.subrange(start as int, n as int),
                sv == v@,
                sv == s@,
                d == unsigned_part(sv),
                (start == 1) == has_sign(sv),
                negative == (start == 1 && sv[0] == '-'),
                i <= 14,
                vals.len() == i,
                forall|k: int| 0 <= k < i ==> is_ascii_digit(#[trigger] d[k]),
                forall|k: int| 0 <= k < i ==> vals@[k] == digit_value(#[trigger] d[k]) && vals@[k] < 10,
            decreases 14 - i,
        {
            match digit_at(&v, start + i) {
                Some(x) => {
                    assert(d[i as int] == v@[start + i]);
                    vals.push(x);
                },
                None => {
                    assert(d[i as int] == v@[start + i]);
                    assert(!is_ascii_digit(d[i as int]));
                    assert(!all_ascii_digits(d));
                    assert(compact_fields(s@) is None);
                    return Err(TimestampError::InvalidFormat(s.to_owned()));
                },
            }
            i = i + 1;
        }
        let y = vals[0] * 1000 + vals[1] * 100 + vals[2] * 10 + vals[3];
        let year: i32 = if negative {
            -(y as i32)
        } else {
            y as i32
        };
        let month = (vals[4] * 10 + vals[5]) as u8;
        let day = (vals[6] * 10 + vals[7]) as u8;
        let hour = (vals[8] * 10 + vals[9]) as u8;
        let minute = (vals[10] * 10 + vals[11]) as u8;
        let second = (vals[12] * 10 + vals[13]) as u8;
        assert(compact_fields(s@) == Some::<TimeFields>(
            (year as int, month as int, day as int, hour as int, minute as int, second as int),
        ));
        match Timestamp::from_parts(year, month, day, hour, minute, second) {
            Some(t) => Ok(t),
            None => Err(TimestampError::InvalidFormat(s.to_owned())),
        }
    }
}

} // verus!
