//! Calendar dates and their decimal text forms.
use vstd::prelude::*;

use crate::text::string_from;
use chrono::Datelike;

verus! {

/// A proleptic Gregorian calendar date.
#[derive(Clone, Copy, Debug, PartialEq, Eq, Structural)]
pub struct CalendarDate {
    pub year: i32,
    pub month: u32,
    pub day: u32,
}

/// The character of a decimal digit.
pub open spec fn digit_char(d: int) -> char {
    ((48 + d) as u8) as char
}

/// The decimal digits of a natural number, without leading zeros.
pub open spec fn decimal(n: nat) -> Seq<char>
    decreases n,
{
    if n < 10 {
        seq![digit_char(n as int)]
    } else {
        decimal(n / 10).push(digit_char((n % 10) as int))
    }
}

/// `s` preceded by enough zeros to be at least `width` characters long.
pub open spec fn zero_pad(s: Seq<char>, width: nat) -> Seq<char> {
    if s.len() >= width {
        s
    } else {
        Seq::new((width - s.len()) as nat, |i: int| '0') + s
    }
}

/// Decimal text of an integer, with a leading minus sign when negative.
pub open spec fn signed_decimal(n: int) -> Seq<char> {
    if n < 0 {
        seq!['-'] + decimal((-n) as nat)
    } else {
        decimal(n as nat)
    }
}

/// A year as ISO 8601 writes it: four digits within 0..=9999, otherwise an
/// explicit sign followed by at least four digits.
pub open spec fn iso_year(y: int) -> Seq<char> {
    if 0 <= y <= 9999 {
        zero_pad(decimal(y as nat), 4)
    } else if y < 0 {
        seq!['-'] + zero_pad(decimal((-y) as nat), 4)
    } else {
        seq!['+'] + zero_pad(decimal(y as nat), 4)
    }
}

/// Two-digit zero-padded form of a month or day.
pub open spec fn two_digits(n: nat) -> Seq<char> {
    zero_pad(decimal(n), 2)
}

/// `YYYY-MM-DD` text of a date.
pub open spec fn iso_date(d: CalendarDate) -> Seq<char> {
    iso_year(d.year as int) + seq!['-'] + two_digits(d.month as nat) + seq!['-'] + two_digits(d.day as nat)
}

/// `YYYY/MM/DD` text of a date.
pub open spec fn slash_date(d: CalendarDate) -> Seq<char> {
    iso_year(d.year as int) + seq!['/'] + two_digits(d.month as nat) + seq!['/'] + two_digits(d.day as nat)
}

pub proof fn lemma_decimal_len(n: nat)
    ensures
        decimal(n).len() >= 1,
        n < 10 ==> decimal(n).len() == 1,
        10 <= n < 100 ==> decimal(n).len() == 2,
        100 <= n < 1000 ==> decimal(n).len() == 3,
        1000 <= n < 10000 ==> decimal(n).len() == 4,
        n >= 10000 ==> decimal(n).len() >= 5,
    decreases n,
{
    if n >= 10 {
        lemma_decimal_len(n / 10);
    }
}

/// Appends the decimal digits of `n`.
pub fn push_decimal(v: &mut Vec<char>, n: u64)
    ensures
        final(v)@ == old(v)@ + decimal(n as nat),
    decreases n,
{
    if n >= 10 {
        push_decimal(v, n / 10);
        let d = (n % 10) as u8;
        v.push((48u8 + d) as char);
        assert(v@ =~= old(v)@ + decimal(n as nat));
    } else {
        let d = n as u8;
        v.push((48u8 + d) as char);
        assert(v@ =~= old(v)@ + decimal(n as nat));
    }
}

/// Appends the decimal digits of `n`, zero-padded to `width` characters.
pub fn push_padded(v: &mut Vec<char>, n: u64, width: usize)
    requires
        width <= 4,
    ensures
        final(v)@ == old(v)@ + zero_pad(decimal(n as nat), width as nat),
{
    proof {
        lemma_decimal_len(n as nat);
    }
    let len: usize = if n < 10 {
        1
    } else if n < 100 {
        2
    } else if n < 1000 {
        3
    } else if n < 10000 {
        4
    } else {
        5
    };
    assert(len >= width ==> decimal(n as nat).len() >= width);
    assert(len < width ==> decimal(n as nat).len() == len);
    let ghost start = v@;
    let mut i: usize = len;
    while i < width
        invariant
            len <= i,
            i <= width || len >= width,
            len >= width ==> i == len,
            width <= 4,
            v@ == start + Seq::new((i - len) as nat, |k: int| '0'),
        decreases width - i,
    {
        v.push('0');
        assert(v@ =~= start + Seq::new((i + 1 - len) as nat, |k: int| '0'));
        i = i + 1;
    }
    let ghost pad = v@;
    push_decimal(v, n);
    if len < width {
        assert(v@ =~= start + zero_pad(decimal(n as nat), width as nat));
    } else {
        assert(i == len);
        assert(pad =~= start);
        assert(v@ =~= start + zero_pad(decimal(n as nat), width as nat));
    }
}

/// Appends the decimal text of a signed integer.
pub fn push_signed_decimal(v: &mut Vec<char>, n: i64)
    ensures
        final(v)@ == old(v)@ + signed_decimal(n as int),
{
    if n < 0 {
        v.push('-');
        let m: i128 = -(n as i128);
        push_decimal(v, m as u64);
        assert(v@ =~= old(v)@ + signed_decimal(n as int));
    } else {
        push_decimal(v, n as u64);
    }
}

/// Appends the ISO 8601 year text.
pub fn push_iso_year(v: &mut Vec<char>, y: i32)
    ensures
        final(v)@ == old(v)@ + iso_year(y as int),
{
    if 0 <= y && y <= 9999 {
        push_padded(v, y as u64, 4);
    } else if y < 0 {
        v.push('-');
        let m: i64 = -(y as i64);
        push_padded(v, m as u64, 4);
        assert(v@ =~= old(v)@ + iso_year(y as int));
    } else {
        v.push('+');
        push_padded(v, y as u64, 4);
        assert(v@ =~= old(v)@ + iso_year(y as int));
    }
}

impl CalendarDate {
    /// Appends the date with `sep` between year, month and day.
    pub fn push_with_separator(&self, v: &mut Vec<char>, sep: char)
        ensures
            final(v)@ == old(v)@ + iso_year(self.year as int) + seq![sep] + two_digits(self.month as nat)
                + seq![sep] + two_digits(self.day as nat),
    {
        push_iso_year(v, self.year);
        v.push(sep);
        push_padded(v, self.month as u64, 2);
        v.push(sep);
        push_padded(v, self.day as u64, 2);
        assert(v@ =~= old(v)@ + iso_year(self.year as int) + seq![sep] + two_digits(self.month as nat)
            + seq![sep] + two_digits(self.day as nat));
    }

    /// The date as `YYYY-MM-DD`, the text form chrono gives a `NaiveDate`.
    pub fn to_iso_string(&self) -> (s: String)
        ensures
            s@ == iso_date(*self),
    {
        let mut v: Vec<char> = Vec::new();
        self.push_with_separator(&mut v, '-');
        assert(v@ =~= iso_date(*self));
        string_from(v.as_slice())
    }
}


/// What `chrono::NaiveDate::parse_from_str(s, "%Y-%m-%d")` gives, as year,
/// month and day.
pub uninterp spec fn ymd_date(s: Seq<char>) -> Option<(i32, u32, u32)>;

/// The calendar date, in the text's own offset, of what
/// `chrono::DateTime::parse_from_rfc3339` gives.
pub uninterp spec fn rfc3339_date(s: Seq<char>) -> Option<(i32, u32, u32)>;

/// The calendar date, in the text's own offset, of what
/// `chrono::DateTime::parse_from_rfc2822` gives.
pub uninterp spec fn rfc2822_date(s: Seq<char>) -> Option<(i32, u32, u32)>;

pub open spec fn date_of(t: Option<(i32, u32, u32)>) -> Option<CalendarDate> {
    match t {
        Some((y, m, d)) => Some(CalendarDate { year: y, month: m, day: d }),
        None => None,
    }
}

/// Calls `chrono::NaiveDate::parse_from_str` with the `%Y-%m-%d` format; the
/// contract names its result, whose month and day are in their calendar
/// ranges as `Datelike::month` and `Datelike::day` document.
#[verifier::external_body]
pub(crate) fn parse_ymd(s: &str) -> (r: Option<(i32, u32, u32)>)
    ensures
        r == ymd_date(s@),
        r matches Some((_, m, d)) ==> 1 <= m <= 12 && 1 <= d <= 31,
{
    match chrono::NaiveDate::parse_from_str(s, "%Y-%m-%d") {
        Ok(date) => Some((date.year(), date.month(), date.day())),
        Err(_) => None,
    }
}

/// Calls `chrono::DateTime::parse_from_rfc3339` and `date_naive`; the
/// contract names the resulting date, whose month and day are in their
/// calendar ranges.
#[verifier::external_body]
pub(crate) fn parse_rfc3339(s: &str) -> (r: Option<(i32, u32, u32)>)
    ensures
        r == rfc3339_date(s@),
        r matches Some((_, m, d)) ==> 1 <= m <= 12 && 1 <= d <= 31,
{
    match chrono::DateTime::parse_from_rfc3339(s) {
        Ok(moment) => Some((moment.date_naive().year(), moment.date_naive().month(), moment.date_naive().day())),
        Err(_) => None,
    }
}

/// Calls `chrono::DateTime::parse_from_rfc2822` and `date_naive`; the
/// contract names the resulting date, whose month and day are in their
/// calendar ranges.
#[verifier::external_body]
pub(crate) fn parse_rfc2822(s: &str) -> (r: Option<(i32, u32, u32)>)
    ensures
        r == rfc2822_date(s@),
        r matches Some((_, m, d)) ==> 1 <= m <= 12 && 1 <= d <= 31,
{
    match chrono::DateTime::parse_from_rfc2822(s) {
        Ok(moment) => Some((moment.date_naive().year(), moment.date_naive().month(), moment.date_naive().day())),
        Err(_) => None,
    }
}

pub fn date_from(t: Option<(i32, u32, u32)>) -> (r: Option<CalendarDate>)
    ensures
        r == date_of(t),
{
    match t {
        Some((y, m, d)) => Some(CalendarDate { year: y, month: m, day: d }),
        None => None,
    }
}

} // verus!
