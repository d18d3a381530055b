//! Shorthand date resolver and the calendar arithmetic behind it.
//!
//! A user-typed token is resolved to a calendar date string: `"t"` (or
//! `"T"`) means today, `"y"` (or `"Y"`) means yesterday, and any other
//! token passes through verbatim as an already-written date. Dates are
//! plain year/month/day numbers in the proleptic Gregorian calendar and
//! are written out as `YYYY-MM-DD`.

use vstd::prelude::*;

verus! {

/// A calendar date held as plain year/month/day numbers.
#[derive(Clone, Copy, PartialEq, Eq, Structural, Debug)]
pub struct Date {
    pub year: i32,
    pub month: u8,
    pub day: u8,
}

/// The Gregorian leap-year rule.
pub open spec fn is_leap_year(y: int) -> bool {
    y % 4 == 0 && (y % 100 != 0 || y % 400 == 0)
}

/// How many days month `m` of year `y` has.
pub open spec fn spec_days_in_month(y: int, m: int) -> int {
    if m == 2 {
        if is_leap_year(y) {
            29
        } else {
            28
        }
    } else if m == 4 || m == 6 || m == 9 || m == 11 {
        30
    } else {
        31
    }
}

/// Year/month/day numbers that name an actual calendar day.
pub open spec fn valid_ymd(y: int, m: int, d: int) -> bool {
    &&& 1 <= m <= 12
    &&& 1 <= d <= spec_days_in_month(y, m)
}

impl Date {
    /// A well-formed date: an actual calendar day whose year fits in the
    /// four digits of the `YYYY-MM-DD` form.
    pub open spec fn wf(self) -> bool {
        &&& 0 <= self.year <= 9999
        &&& valid_ymd(self.year as int, self.month as int, self.day as int)
    }

    /// Whether the day before `self` is still representable.
    pub open spec fn has_prev(self) -> bool {
        !(self.year == 0 && self.month == 1 && self.day == 1)
    }
}

/// How many days the month holds.
pub fn days_in_month(y: i32, m: u8) -> (n: u8)
    requires
        0 <= y,
        1 <= m <= 12,
    ensures
        n as int == spec_days_in_month(y as int, m as int),
{
    if m == 2 {
        if y % 4 == 0 && (y % 100 != 0 || y % 400 == 0) {
            29
        } else {
            28
        }
    } else if m == 4 || m == 6 || m == 9 || m == 11 {
        30
    } else {
        31
    }
}

/// The day before `d`.
pub open spec fn spec_prev_day(d: Date) -> Date {
    if d.day > 1 {
        Date { year: d.year, month: d.month, day: (d.day - 1) as u8 }
    } else if d.month > 1 {
        Date {
            year: d.year,
            month: (d.month - 1) as u8,
            day: spec_days_in_month(d.year as int, d.month - 1) as u8,
        }
    } else {
        Date { year: (d.year - 1) as i32, month: 12u8, day: 31u8 }
    }
}

/// The day after `d`.
pub open spec fn spec_next_day(d: Date) -> Date {
    if d.day < spec_days_in_month(d.year as int, d.month as int) {
        Date { year: d.year, month: d.month, day: (d.day + 1) as u8 }
    } else if d.month < 12 {
        Date { year: d.year, month: (d.month + 1) as u8, day: 1u8 }
    } else {
        Date { year: (d.year + 1) as i32, month: 1u8, day: 1u8 }
    }
}

/// Step one day back in the calendar.
pub fn prev_day(d: Date) -> (r: Date)
    requires
        d.wf(),
        d.has_prev(),
    ensures
        r == spec_prev_day(d),
        r.wf(),
{
    if d.day > 1 {
        Date { year: d.year, month: d.month, day: d.day - 1 }
    } else if d.month > 1 {
        Date { year: d.year, month: d.month - 1, day: days_in_month(d.year, d.month - 1) }
    } else {
        Date { year: d.year - 1, month: 12, day: 31 }
    }
}

/// Law: stepping back one day and then forward one day returns to the
/// starting date, so `spec_prev_day` names exactly the day before.
pub proof fn lemma_prev_then_next(d: Date)
    requires
        d.wf(),
        d.has_prev(),
    ensures
        spec_next_day(spec_prev_day(d)) == d,
{
}

/// The character for a single decimal digit.
pub open spec fn digit_char(v: int) -> char {
    (48 + v) as char
}

/// The ten characters `YYYY-MM-DD` that write out a date.
pub open spec fn spec_date_chars(d: Date) -> Seq<char> {
    let y = d.year as int;
    let m = d.month as int;
    let dd = d.day as int;
    seq![
        digit_char(y / 1000),
        digit_char((y / 100) % 10),
        digit_char((y / 10) % 10),
        digit_char(y % 10),
        '-',
        digit_char(m / 10),
        digit_char(m % 10),
        '-',
        digit_char(dd / 10),
        digit_char(dd % 10),
    ]
}

/// One decimal digit as a character.
fn digit_to_char(v: u32) -> (c: char)
    requires
        v < 10,
    ensures
        c == digit_char(v as int),
{
    (48 + v as u8) as char
}

/// Write a date out as `YYYY-MM-DD`, zero-padded.
pub fn date_chars(d: Date) -> (r: Vec<char>)
    requires
        d.wf(),
    ensures
        r@ == spec_date_chars(d),
{
    let y = d.year as u32;
    let m = d.month as u32;
    let dd = d.day as u32;
    let mut out: Vec<char> = Vec::new();
    out.push(digit_to_char(y / 1000));
    out.push(digit_to_char((y / 100) % 10));
    out.push(digit_to_char((y / 10) % 10));
    out.push(digit_to_char(y % 10));
    out.push('-');
    out.push(digit_to_char(m / 10));
    out.push(digit_to_char(m % 10));
    out.push('-');
    out.push(digit_to_char(dd / 10));
    out.push(digit_to_char(dd % 10));
    proof {
        assert(out@ =~= spec_date_chars(d));
    }
    out
}

/// Tokens that stand for today.
pub open spec fn is_today_token(s: Seq<char>) -> bool {
    s == seq!['t'] || s == seq!['T']
}

/// Tokens that stand for yesterday.
pub open spec fn is_yesterday_token(s: Seq<char>) -> bool {
    s == seq!['y'] || s == seq!['Y']
}

/// What a token resolves to: today's date for `"t"`, yesterday's for
/// `"y"` (case-insensitively), and the token itself for anything else.
pub open spec fn spec_resolve(token: Seq<char>, today: Date) -> Seq<char> {
    if is_today_token(token) {
        spec_date_chars(today)
    } else if is_yesterday_token(token) {
        spec_date_chars(spec_prev_day(today))
    } else {
        token
    }
}

/// Resolve a shorthand date token against today's date. Unrecognized
/// tokens pass through verbatim: no validation is performed on them.
pub fn resolve(token: &Vec<char>, today: Date) -> (r: Vec<char>)
    requires
        today.wf(),
        is_yesterday_token(token@) ==> today.has_prev(),
    ensures
        r@ == spec_resolve(token@, today),
{
    if token.len() == 1 && (token[0] == 't' || token[0] == 'T') {
        proof {
            assert(token@ =~= seq![token@[0]]);
        }
        date_chars(today)
    } else if token.len() == 1 && (token[0] == 'y' || token[0] == 'Y') {
        proof {
            assert(token@ =~= seq![token@[0]]);
        }
        date_chars(prev_day(today))
    } else {
        proof {
            assert(token@.len() == 1 ==> token@ =~= seq![token@[0]]);
        }
        token.clone()
    }
}

/// Law: `"t"` and `"T"` resolve to today's date, written `YYYY-MM-DD`,
/// for every date.
pub proof fn lemma_resolve_today(today: Date)
    ensures
        spec_resolve(seq!['t'], today) == spec_date_chars(today),
        spec_resolve(seq!['T'], today) == spec_resolve(seq!['t'], today),
{
}

/// Law: `"y"` and `"Y"` resolve to the day before today, for every date.
pub proof fn lemma_resolve_yesterday(today: Date)
    ensures
        spec_resolve(seq!['y'], today) == spec_date_chars(spec_prev_day(today)),
        spec_resolve(seq!['Y'], today) == spec_resolve(seq!['y'], today),
{
    assert(seq!['y'] != seq!['t'] && seq!['y'] != seq!['T']) by {
        assert(seq!['y'][0] == 'y');
    }
    assert(seq!['Y'] != seq!['t'] && seq!['Y'] != seq!['T']) by {
        assert(seq!['Y'][0] == 'Y');
    }
}

/// Law: any token other than the four shorthands passes through verbatim,
/// whatever today's date is.
pub proof fn lemma_resolve_literal(token: Seq<char>, today: Date)
    requires
        !is_today_token(token),
        !is_yesterday_token(token),
    ensures
        spec_resolve(token, today) == token,
{
}

/// Today's date read from the system clock.
///
/// Relies on `chrono::Local::now` and `chrono::NaiveDate`: a `NaiveDate`
/// always names an actual day of the proleptic Gregorian calendar, its
/// `month()` lies in `1..=12` and its `day()` in `1..=`days-of-month.
#[verifier::external_body]
fn clock_today_ymd() -> (r: (i32, u32, u32))
    ensures
        valid_ymd(r.0 as int, r.1 as int, r.2 as int),
{
    let d = chrono::Local::now().date_naive();
    (chrono::Datelike::year(&d), chrono::Datelike::month(&d), chrono::Datelike::day(&d))
}

/// Build a date from plain year/month/day numbers, however they were
/// obtained: the numbers themselves when they name a real calendar day
/// in the four-digit year range `1..=9999`, and the fixed fallback
/// 2000-01-01 for anything else, so that the result is always
/// well-formed and never the unsteppable first day.
pub fn date_from_parts(y: i32, m: u32, d: u32) -> (r: Date)
    ensures
        r.wf(),
        r.has_prev(),
        (valid_ymd(y as int, m as int, d as int) && 1 <= y <= 9999) ==> r == (Date {
            year: y,
            month: m as u8,
            day: d as u8,
        }),
        !(valid_ymd(y as int, m as int, d as int) && 1 <= y <= 9999) ==> r == (Date {
            year: 2000,
            month: 1u8,
            day: 1u8,
        }),
{
    if 1 <= y && y <= 9999 && 1 <= m && m <= 12 {
        let dim = days_in_month(y, m as u8);
        if 1 <= d && d <= dim as u32 {
            return Date { year: y, month: m as u8, day: d as u8 };
        }
    }
    Date { year: 2000, month: 1, day: 1 }
}

/// Today's date, well-formed whatever the clock reports: the clock's
/// numbers when they name a four-digit-year calendar day — which they
/// always do in practice — and 2000-01-01 otherwise.
pub fn today() -> (d: Date)
    ensures
        d.wf(),
        d.has_prev(),
{
    let (y, m, dd) = clock_today_ymd();
    date_from_parts(y, m, dd)
}

} // verus!
