//! Calendar dates (proleptic Gregorian) and the calendar arithmetic of the ledger.
//!
//! A `Date` holds year, month and day as plain numbers. Day-level calendar
//! facts (the previous day, the distance in days between two dates, the text
//! forms of a date) come from chrono through the wrappers of this module; the
//! month arithmetic used for fiscal periods and schedules is verified here.

use vstd::prelude::*;
use chrono::{Datelike, NaiveDate};
use crate::money::{pow10, lemma_decimal_len_bound};
use crate::text::{zero_padded, push_zero_padded, push_str, push_decimal, decimal_digits, string_from_chars};

verus! {

/// A calendar date.
#[derive(Clone, Copy, Debug, PartialEq, Eq, Hash, Structural)]
pub struct Date {
    pub year: i32,
    pub month: u32,
    pub day: u32,
}

/// Gregorian leap year rule.
pub open spec fn is_leap_year(y: int) -> bool {
    y % 4 == 0 && (y % 100 != 0 || y % 400 == 0)
}

/// Number of days in month `m` of year `y`.
pub open spec fn days_in_month_of(y: int, m: int) -> int {
    if m == 2 {
        if is_leap_year(y) { 29 } else { 28 }
    } else if m == 4 || m == 6 || m == 9 || m == 11 {
        30
    } else {
        31
    }
}

/// The year range the ledger works in.
pub open spec fn in_calendar_range(y: int) -> bool {
    -262_000 <= y <= 262_000
}

/// Month and day form a real calendar date.
pub open spec fn calendar_date(d: Date) -> bool {
    &&& 1 <= d.month <= 12
    &&& 1 <= d.day <= days_in_month_of(d.year as int, d.month as int)
}

/// A real calendar date inside the range that chrono represents (with a margin).
pub open spec fn chrono_date(d: Date) -> bool {
    calendar_date(d) && -262_100 <= d.year <= 262_100
}

/// A real calendar date inside the ledger's year range.
pub open spec fn valid_date(d: Date) -> bool {
    calendar_date(d) && in_calendar_range(d.year as int)
}

/// Days in all years before year `y`, counting from January 1 of year 1.
pub open spec fn days_before_year(y: int) -> int {
    365 * (y - 1) + (y - 1) / 4 - (y - 1) / 100 + (y - 1) / 400
}

/// Days in the months of year `y` before month `m`.
pub open spec fn days_before_month(y: int, m: int) -> int {
    let base: int = if m == 1 { 0 }
        else if m == 2 { 31 }
        else if m == 3 { 59 }
        else if m == 4 { 90 }
        else if m == 5 { 120 }
        else if m == 6 { 151 }
        else if m == 7 { 181 }
        else if m == 8 { 212 }
        else if m == 9 { 243 }
        else if m == 10 { 273 }
        else if m == 11 { 304 }
        else { 334 };
    if m > 2 && is_leap_year(y) { base + 1 } else { base }
}

/// The day number of a date: January 1 of year 1 is day 1.
pub open spec fn day_number(d: Date) -> int {
    days_before_year(d.year as int) + days_before_month(d.year as int, d.month as int) + d.day
}

/// The day before a date.
pub open spec fn previous_day(d: Date) -> Date {
    if d.day > 1 {
        Date { year: d.year, month: d.month, day: (d.day - 1) as u32 }
    } else if d.month > 1 {
        Date {
            year: d.year,
            month: (d.month - 1) as u32,
            day: days_in_month_of(d.year as int, d.month - 1) as u32,
        }
    } else {
        Date { year: (d.year - 1) as i32, month: 12, day: 31 }
    }
}

/// Chronological order of dates: by year, then month, then day.
pub open spec fn date_le(a: Date, b: Date) -> bool {
    a.year < b.year || (a.year == b.year && (a.month < b.month || (a.month == b.month
        && a.day <= b.day)))
}

/// The ISO form `YYYY-MM-DD` of a date whose year has at most four digits.
pub open spec fn iso_text(d: Date) -> Seq<char> {
    zero_padded(d.year as nat, 4) + seq!['-'] + zero_padded(d.month as nat, 2) + seq!['-']
        + zero_padded(d.day as nat, 2)
}

/// The English name of month `m`.
pub open spec fn month_name(m: int) -> Seq<char> {
    if m == 1 { "January"@ }
    else if m == 2 { "February"@ }
    else if m == 3 { "March"@ }
    else if m == 4 { "April"@ }
    else if m == 5 { "May"@ }
    else if m == 6 { "June"@ }
    else if m == 7 { "July"@ }
    else if m == 8 { "August"@ }
    else if m == 9 { "September"@ }
    else if m == 10 { "October"@ }
    else if m == 11 { "November"@ }
    else { "December"@ }
}

/// The long form `Month D, YYYY` of a date whose year has at most four digits.
pub open spec fn long_text(d: Date) -> Seq<char> {
    month_name(d.month as int) + seq![' '] + decimal_digits(d.day as nat) + seq![',', ' ']
        + zero_padded(d.year as nat, 4)
}

/// The three-letter English abbreviation of month `m`.
pub open spec fn month_abbrev(m: int) -> Seq<char> {
    month_name(m).take(3)
}

/// The short form `Mon D` of a date (abbreviated month, day without padding).
pub open spec fn abbrev_text(d: Date) -> Seq<char> {
    month_abbrev(d.month as int) + seq![' '] + decimal_digits(d.day as nat)
}

/// A year that chrono prints as exactly four digits.
pub open spec fn four_digit_year(d: Date) -> bool {
    0 <= d.year <= 9999
}

/// What chrono's `NaiveDate::parse_from_str(s, "%Y-%m-%d")` yields for text `s`,
/// as (year, month, day).
pub uninterp spec fn parsed_iso_date(s: Seq<char>) -> Option<(int, int, int)>;

/// The day before `d`, computed by chrono's `NaiveDate::pred_opt`.
/// Claimed: for a valid date in range the result is the previous calendar day.
#[verifier::external_body]
fn chrono_pred(d: Date) -> (r: Option<Date>)
    ensures
        chrono_date(d) && d.year > -262_100 ==> r == Some(previous_day(d)),
{
    match NaiveDate::from_ymd_opt(d.year, d.month, d.day) {
        Some(n) => match n.pred_opt() {
            Some(p) => Some(Date { year: p.year(), month: p.month(), day: p.day() }),
            None => None,
        },
        None => None,
    }
}

/// Whole days from `earlier` to `later`, computed by chrono's date subtraction
/// (`NaiveDate - NaiveDate`, then `TimeDelta::num_days`).
/// Claimed: for valid dates the result is the difference of their day numbers.
#[verifier::external_body]
fn chrono_days_between(later: Date, earlier: Date) -> (r: Option<i64>)
    ensures
        chrono_date(later) && chrono_date(earlier) ==> r == Some(
            (day_number(later) - day_number(earlier)) as i64,
        ),
{
    match (
        NaiveDate::from_ymd_opt(later.year, later.month, later.day),
        NaiveDate::from_ymd_opt(earlier.year, earlier.month, earlier.day),
    ) {
        (Some(a), Some(b)) => Some((a - b).num_days()),
        _ => None,
    }
}

/// What chrono's `NaiveDate::from_ymd_opt(year, month, day)` followed by
/// `format(pattern).to_string()` yields: `None` when the date is not one chrono
/// represents.
pub uninterp spec fn chrono_date_text(year: int, month: int, day: int, pattern: Seq<char>) -> Option<Seq<char>>;

/// The years chrono's `NaiveDate` represents.
pub open spec fn chrono_year(y: int) -> bool {
    -262_143 <= y <= 262_142
}

/// The date patterns the library formats with: ISO, long English and short.
pub open spec fn date_pattern(p: Seq<char>) -> bool {
    p == "%Y-%m-%d"@ || p == "%B %-d, %Y"@ || p == "%b %-d"@
}

/// Text of a date in chrono's `format(pattern)`, for one of the library's
/// date patterns (chrono's formatting panics on a pattern it cannot render).
/// Claimed: the outcome is `chrono_date_text` of the date and pattern; a real
/// calendar date in chrono's year range is always represented; and on dates
/// with four-digit years the three patterns give the ISO form, the long
/// English form and the short form.
#[verifier::external_body]
pub(crate) fn chrono_format(d: Date, pattern: &str) -> (r: Option<String>)
    requires
        date_pattern(pattern@),
    ensures
        r matches Some(s) ==> chrono_date_text(d.year as int, d.month as int, d.day as int, pattern@) == Some(s@),
        r is None ==> chrono_date_text(d.year as int, d.month as int, d.day as int, pattern@) is None,
        calendar_date(d) && chrono_year(d.year as int) ==> r is Some,
        (calendar_date(d) && four_digit_year(d) && pattern@ == "%Y-%m-%d"@) ==> (r is Some && r.unwrap()@ == iso_text(d)),
        (calendar_date(d) && four_digit_year(d) && pattern@ == "%B %-d, %Y"@) ==> (r is Some && r.unwrap()@ == long_text(d)),
        (calendar_date(d) && four_digit_year(d) && pattern@ == "%b %-d"@) ==> (r is Some && r.unwrap()@ == abbrev_text(d)),
{
    match NaiveDate::from_ymd_opt(d.year, d.month, d.day) {
        Some(n) => Some(n.format(pattern).to_string()),
        None => None,
    }
}

/// Parses text with chrono's `NaiveDate::parse_from_str` and the ISO pattern.
/// Claimed: the result is `parsed_iso_date` of the text, and a parsed date is a
/// real calendar date.
#[verifier::external_body]
fn chrono_parse_iso(s: &str, pattern: &str) -> (r: Option<Date>)
    requires
        pattern@ == "%Y-%m-%d"@,
    ensures
        r matches Some(d) ==> parsed_iso_date(s@) == Some((d.year as int, d.month as int, d.day as int))
            && 1 <= d.month <= 12 && 1 <= d.day <= days_in_month_of(d.year as int, d.month as int),
        r is None ==> parsed_iso_date(s@) is None,
{
    match NaiveDate::parse_from_str(s, pattern) {
        Ok(n) => Some(Date { year: n.year(), month: n.month(), day: n.day() }),
        Err(_) => None,
    }
}

/// Today's date on the local clock (chrono's `Local::now().date_naive()`).
/// Claimed: a real calendar date in the year range chrono's `NaiveDate` represents.
#[verifier::external_body]
pub(crate) fn today() -> (d: Date)
    ensures
        chrono_year(d.year as int),
        1 <= d.month <= 12,
        1 <= d.day <= days_in_month_of(d.year as int, d.month as int),
{
    let n = chrono::Local::now().date_naive();
    Date { year: n.year(), month: n.month(), day: n.day() }
}

impl Date {
    /// A date from its parts.
    pub fn new(year: i32, month: u32, day: u32) -> (d: Date)
        ensures
            d.year == year && d.month == month && d.day == day,
    {
        Date { year, month, day }
    }

    /// True when this date is on or before `other`.
    pub fn le(&self, other: &Date) -> (b: bool)
        ensures
            b == date_le(*self, *other),
    {
        self.year < other.year || (self.year == other.year && (self.month < other.month || (
        self.month == other.month && self.day <= other.day)))
    }

    /// The day before this date.
    pub fn pred(&self) -> (d: Date)
        requires
            chrono_date(*self),
            self.year > -262_100,
        ensures
            d == previous_day(*self),
    {
        match chrono_pred(*self) {
            Some(p) => p,
            None => {
                assert(false);
                *self
            },
        }
    }

    /// The `YYYY-MM-DD` text of this date.
    pub fn to_iso_string(&self) -> (s: String)
        requires
            valid_date(*self),
            four_digit_year(*self),
        ensures
            s@ == iso_text(*self),
    {
        match chrono_format(*self, "%Y-%m-%d") {
            Some(s) => s,
            None => {
                assert(false);
                String::new()
            },
        }
    }

    /// The `Month D, YYYY` text of this date.
    pub fn to_long_string(&self) -> (s: String)
        requires
            valid_date(*self),
            four_digit_year(*self),
        ensures
            s@ == long_text(*self),
    {
        match chrono_format(*self, "%B %-d, %Y") {
            Some(s) => s,
            None => {
                assert(false);
                String::new()
            },
        }
    }

    /// The `Mon D` text of this date.
    pub fn to_short_string(&self) -> (s: String)
        requires
            valid_date(*self),
            four_digit_year(*self),
        ensures
            s@ == abbrev_text(*self),
    {
        match chrono_format(*self, "%b %-d") {
            Some(s) => s,
            None => {
                assert(false);
                String::new()
            },
        }
    }

    /// Parses `YYYY-MM-DD` text.
    pub fn parse_iso(s: &str) -> (r: Option<Date>)
        ensures
            r matches Some(d) ==> parsed_iso_date(s@) == Some(
                (d.year as int, d.month as int, d.day as int),
            ) && 1 <= d.month <= 12 && 1 <= d.day <= days_in_month_of(d.year as int, d.month as int),
            r is None ==> parsed_iso_date(s@) is None,
    {
        chrono_parse_iso(s, "%Y-%m-%d")
    }
}

/// Whole days from `earlier` to `later` (negative when `later` is before `earlier`).
pub fn days_between(later: Date, earlier: Date) -> (n: i64)
    requires
        valid_date(later),
        valid_date(earlier),
    ensures
        n == day_number(later) - day_number(earlier),
{
    proof {
        lemma_day_number_bounds(later);
        lemma_day_number_bounds(earlier);
    }
    match chrono_days_between(later, earlier) {
        Some(n) => n,
        None => {
            assert(false);
            0
        },
    }
}

/// Day numbers of dates in range are far inside `i64`.
pub proof fn lemma_day_number_bounds(d: Date)
    requires
        valid_date(d),
    ensures
        -100_000_000 <= day_number(d) <= 100_000_000,
{
    let y = d.year as int;
    assert(-262_001 <= y - 1 <= 262_000);
    assert(-65_501 <= (y - 1) / 4 <= 65_500);
    assert(-2_621 <= (y - 1) / 100 <= 2_620);
    assert(-656 <= (y - 1) / 400 <= 655);
}

/// Number of days in a month, as the day of the last day of the month.
pub fn days_in_month(year: i32, month: u32) -> (n: u32)
    requires
        1 <= month <= 12,
        -262_100 < year < 262_100,
    ensures
        n == days_in_month_of(year as int, month as int),
{
    let next = if month == 12 {
        Date { year: year + 1, month: 1, day: 1 }
    } else {
        Date { year, month: month + 1, day: 1 }
    };
    let last = next.pred();
    last.day
}

/// The first day of the month `months` calendar months after the month of `date`.
pub fn advance_months(date: Date, months: u32) -> (d: Date)
    requires
        1 <= date.month <= 12,
        months <= 1200,
        date.year + 100 <= i32::MAX,
    ensures
        d.day == 1,
        d.year * 12 + d.month - 1 == date.year * 12 + date.month - 1 + months,
        1 <= d.month <= 12,
{
    let total_months: u32 = (date.month - 1) + months;
    let year_offset: i32 = (total_months / 12) as i32;
    let new_month: u32 = total_months % 12 + 1;
    Date { year: date.year + year_offset, month: new_month, day: 1 }
}

/// The last day of the month containing `date`.
pub fn month_end(date: Date) -> (d: Date)
    requires
        1 <= date.month <= 12,
        -262_099 <= date.year <= 262_099,
    ensures
        d.year == date.year,
        d.month == date.month,
        d.day == days_in_month_of(date.year as int, date.month as int),
{
    let next = advance_months(date, 1);
    let r = next.pred();
    r
}

/// The number of whole months from January of year 0 to the month of `d`.
pub open spec fn month_index(d: Date) -> int {
    d.year * 12 + d.month - 1
}

/// The first day of the month with month index `i`.
pub open spec fn first_of_month(i: int) -> Date {
    Date { year: (i / 12) as i32, month: (i % 12 + 1) as u32, day: 1 }
}

/// The first day of the `n`-th month after the month of `start` (`n == 1` is the next month).
pub fn month_start_after(start: Date, n: u32) -> (d: Date)
    requires
        1 <= start.month <= 12,
        start.year + (start.month - 1 + n) / 12 <= i32::MAX,
    ensures
        d == first_of_month(month_index(start) + n),
        month_index(d) == month_index(start) + n,
{
    let total: u64 = (start.month - 1) as u64 + n as u64;
    let year_offset: u64 = total / 12;
    let month: u32 = (total % 12) as u32 + 1;
    let year: i32 = start.year + year_offset as i32;
    proof {
        let i = month_index(start) + n;
        assert(i == start.year * 12 + total);
        assert(i / 12 == start.year + total / 12);
        assert(i % 12 == total % 12);
    }
    Date { year, month, day: 1 }
}

/// The ISO text of a date with a four-digit year is short.
pub proof fn lemma_iso_text_short(d: Date)
    requires
        calendar_date(d),
        four_digit_year(d),
    ensures
        iso_text(d).len() <= 40,
{
    reveal_with_fuel(pow10, 5);
    lemma_decimal_len_bound(d.year as nat, 4);
    lemma_decimal_len_bound(d.month as nat, 2);
    lemma_decimal_len_bound(d.day as nat, 2);
}

/// The long text of a date with a four-digit year is short.
pub proof fn lemma_long_text_short(d: Date)
    requires
        calendar_date(d),
        four_digit_year(d),
    ensures
        long_text(d).len() <= 40,
{
    reveal_strlit("January");
    reveal_strlit("February");
    reveal_strlit("March");
    reveal_strlit("April");
    reveal_strlit("May");
    reveal_strlit("June");
    reveal_strlit("July");
    reveal_strlit("August");
    reveal_strlit("September");
    reveal_strlit("October");
    reveal_strlit("November");
    reveal_strlit("December");
    assert(month_name(d.month as int).len() <= 9);
    reveal_with_fuel(pow10, 5);
    lemma_decimal_len_bound(d.day as nat, 2);
    lemma_decimal_len_bound(d.year as nat, 4);
}

} // verus!
