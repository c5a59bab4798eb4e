//! Calendar dates: parsing RFC 2822 and RFC 3339 timestamps and writing the
//! `YYYY-MM-DD` form that posts carry.

use crate::error::SourceError;
use crate::text::push_char;
use chrono::Datelike;
use vstd::prelude::*;

verus! {

/// A calendar date as year, month (1 to 12) and day of month (1 to 31).
#[derive(Clone, Copy, Debug, PartialEq, Eq, Structural)]
pub struct CalendarDate {
    pub year: i32,
    pub month: u32,
    pub day: u32,
}

impl CalendarDate {
    pub open spec fn wf(&self) -> bool {
        1 <= self.month <= 12 && 1 <= self.day <= 31
    }

    pub open spec fn ymd(&self) -> (i32, u32, u32) {
        (self.year, self.month, self.day)
    }

    /// The date as `YYYY-MM-DD`.
    pub fn to_iso(&self) -> (r: String)
        ensures
            r@ == iso_day(self.year as int, self.month as nat, self.day as nat),
    {
        let mut r = String::new();
        push_year(&mut r, self.year);
        push_char(&mut r, '-');
        push_padded(&mut r, self.month as u64, 2);
        push_char(&mut r, '-');
        push_padded(&mut r, self.day as u64, 2);
        r
    }
}

/// The calendar date of an RFC 2822 timestamp, in the timestamp's own offset.
pub uninterp spec fn rfc2822_date(s: Seq<char>) -> Option<(i32, u32, u32)>;

/// The calendar date of an RFC 3339 timestamp, in the timestamp's own offset.
pub uninterp spec fn rfc3339_date(s: Seq<char>) -> Option<(i32, u32, u32)>;

/// Relies on chrono's `DateTime::parse_from_rfc2822` (and `Datelike`, whose month
/// ranges over 1 to 12 and day over 1 to 31): the date part of the parsed timestamp.
#[verifier::external_body]
fn parse_rfc2822(s: &str) -> (r: Option<CalendarDate>)
    ensures
        r matches Some(d) ==> d.wf() && rfc2822_date(s@) == Some(d.ymd()),
        r is None ==> rfc2822_date(s@) is None,
{
    chrono::DateTime::parse_from_rfc2822(s).ok().map(
        |t| CalendarDate { year: t.year(), month: t.month(), day: t.day() },
    )
}

/// Relies on chrono's `DateTime::parse_from_rfc3339` (and `Datelike`, whose month
/// ranges over 1 to 12 and day over 1 to 31): the date part of the parsed timestamp.
#[verifier::external_body]
fn parse_rfc3339(s: &str) -> (r: Option<CalendarDate>)
    ensures
        r matches Some(d) ==> d.wf() && rfc3339_date(s@) == Some(d.ymd()),
        r is None ==> rfc3339_date(s@) is None,
{
    chrono::DateTime::parse_from_rfc3339(s).ok().map(
        |t| CalendarDate { year: t.year(), month: t.month(), day: t.day() },
    )
}

pub open spec fn digit(d: nat) -> char {
    if d == 0 {
        '0'
    } else if d == 1 {
        '1'
    } else if d == 2 {
        '2'
    } else if d == 3 {
        '3'
    } else if d == 4 {
        '4'
    } else if d == 5 {
        '5'
    } else if d == 6 {
        '6'
    } else if d == 7 {
        '7'
    } else if d == 8 {
        '8'
    } else {
        '9'
    }
}

/// The decimal digits of `n`, without leading zeros.
pub open spec fn decimal(n: nat) -> Seq<char>
    decreases n,
{
    if n < 10 {
        seq![digit(n)]
    } else {
        decimal(n / 10).push(digit(n % 10))
    }
}

/// `s` with zeros put in front until it is `w` characters long.
pub open spec fn zero_pad(s: Seq<char>, w: nat) -> Seq<char> {
    if s.len() >= w {
        s
    } else {
        Seq::new((w - s.len()) as nat, |i: int| '0') + s
    }
}

/// A year as `%Y` writes it: four digits from 0 to 9999, else a sign and at least
/// four digits.
pub open spec fn year_text(y: int) -> Seq<char> {
    if 0 <= y <= 9999 {
        zero_pad(decimal(y as nat), 4)
    } else if y < 0 {
        seq!['-'] + zero_pad(decimal((-y) as nat), 4)
    } else {
        seq!['+'] + zero_pad(decimal(y as nat), 4)
    }
}

/// `YYYY-MM-DD`.
pub open spec fn iso_day(y: int, m: nat, d: nat) -> Seq<char> {
    year_text(y) + seq!['-'] + zero_pad(decimal(m), 2) + seq!['-'] + zero_pad(decimal(d), 2)
}

/// What a timestamp normalizes to, given what each of the two parsers made of it.
pub open spec fn resolved_day(
    rfc2822: Option<(i32, u32, u32)>,
    rfc3339: Option<(i32, u32, u32)>,
) -> Result<Seq<char>, SourceError> {
    match rfc2822 {
        Some(t) => Ok(iso_day(t.0 as int, t.1 as nat, t.2 as nat)),
        None => match rfc3339 {
            Some(t) => Ok(iso_day(t.0 as int, t.1 as nat, t.2 as nat)),
            None => Err(SourceError::UnparsableDate),
        },
    }
}

pub open spec fn result_view(r: Result<String, SourceError>) -> Result<Seq<char>, SourceError> {
    match r {
        Ok(s) => Ok(s@),
        Err(e) => Err(e),
    }
}

fn digit_char(d: u64) -> (c: char)
    requires
        d < 10,
    ensures
        c == digit(d as nat),
{
    if d == 0 {
        '0'
    } else if d == 1 {
        '1'
    } else if d == 2 {
        '2'
    } else if d == 3 {
        '3'
    } else if d == 4 {
        '4'
    } else if d == 5 {
        '5'
    } else if d == 6 {
        '6'
    } else if d == 7 {
        '7'
    } else if d == 8 {
        '8'
    } else {
        '9'
    }
}

/// Appends the decimal digits of `n`.
pub fn push_decimal(out: &mut String, n: u64)
    ensures
        final(out)@ == old(out)@ + decimal(n as nat),
    decreases n,
{
    if n >= 10 {
        push_decimal(out, n / 10);
        push_char(out, digit_char(n % 10));
        assert(final(out)@ =~= old(out)@ + decimal(n as nat));
    } else {
        push_char(out, digit_char(n));
        assert(final(out)@ =~= old(out)@ + decimal(n as nat));
    }
}

/// Appends the decimal digits of `n`, with leading zeros up to `w` characters.
pub fn push_padded(out: &mut String, n: u64, w: usize)
    ensures
        final(out)@ == old(out)@ + zero_pad(decimal(n as nat), w as nat),
{
    let mut digits = String::new();
    push_decimal(&mut digits, n);
    assert(digits@ =~= decimal(n as nat));
    let len = digits.as_str().unicode_len();
    let ghost start = out@;
    if len < w {
        let mut i: usize = 0;
        while i < w - len
            invariant
                len < w,
                i <= w - len,
                out@ == start + Seq::new(i as nat, |k: int| '0'),
            decreases w - len - i,
        {
            push_char(out, '0');
            assert(out@ =~= start + Seq::new((i + 1) as nat, |k: int| '0'));
            i += 1;
        }
    }
    out.append(digits.as_str());
    assert(final(out)@ =~= old(out)@ + zero_pad(decimal(n as nat), w as nat));
}

fn push_year(out: &mut String, y: i32)
    ensures
        final(out)@ == old(out)@ + year_text(y as int),
{
    if 0 <= y && y <= 9999 {
        push_padded(out, y as u64, 4);
    } else if y < 0 {
        push_char(out, '-');
        let a: i64 = -(y as i64);
        push_padded(out, a as u64, 4);
        assert(final(out)@ =~= old(out)@ + year_text(y as int));
    } else {
        push_char(out, '+');
        push_padded(out, y as u64, 4);
        assert(final(out)@ =~= old(out)@ + year_text(y as int));
    }
}

/// Writes the date that the first successful parse found, trying RFC 2822 before
/// RFC 3339.
pub fn resolve_date(rfc2822: Option<CalendarDate>, rfc3339: Option<CalendarDate>) -> (r: Result<
    String,
    SourceError,
>)
    ensures
        result_view(r) == resolved_day(
            match rfc2822 {
                Some(d) => Some(d.ymd()),
                None => None,
            },
            match rfc3339 {
                Some(d) => Some(d.ymd()),
                None => None,
            },
        ),
{
    match rfc2822 {
        Some(d) => Ok(d.to_iso()),
        None => match rfc3339 {
            Some(d) => Ok(d.to_iso()),
            None => Err(SourceError::UnparsableDate),
        },
    }
}

/// Normalizes an RFC 2822 or RFC 3339 timestamp to its calendar date, `YYYY-MM-DD`;
/// the time of day and the offset are dropped.
pub fn normalize_date(s: &str) -> (r: Result<String, SourceError>)
    ensures
        result_view(r) == resolved_day(rfc2822_date(s@), rfc3339_date(s@)),
{
    let first = parse_rfc2822(s);
    if first.is_some() {
        resolve_date(first, None)
    } else {
        resolve_date(None, parse_rfc3339(s))
    }
}

} // verus!
