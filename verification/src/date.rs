use chrono::Datelike;
use vstd::prelude::*;
use vstd::string::*;

use crate::text::{push_zero_padded, zero_padded};

verus! {

/// Earliest year a calendar date can carry.
pub const MIN_YEAR: i32 = -262143;

/// Latest year a calendar date can carry.
pub const MAX_YEAR: i32 = 262142;

/// A proleptic Gregorian calendar date.
#[derive(Clone, Copy, Debug, PartialEq, Eq, Structural)]
pub struct Date {
    pub year: i32,
    pub month: u32,
    pub day: u32,
}

pub open spec fn is_leap_year(year: int) -> bool {
    (year % 4 == 0 && year % 100 != 0) || year % 400 == 0
}

pub open spec fn days_in_month(year: int, month: int) -> int {
    if month == 2 {
        if is_leap_year(year) {
            29
        } else {
            28
        }
    } else if month == 4 || month == 6 || month == 9 || month == 11 {
        30
    } else {
        31
    }
}

impl Date {
    /// The date exists in the calendar and lies in the supported year range.
    pub open spec fn valid(self) -> bool {
        &&& MIN_YEAR <= self.year <= MAX_YEAR
        &&& 1 <= self.month <= 12
        &&& 1 <= self.day <= days_in_month(self.year as int, self.month as int)
    }

    /// Calendar order: `self` falls strictly before `other`.
    pub open spec fn before(self, other: Date) -> bool {
        ||| self.year < other.year
        ||| self.year == other.year && self.month < other.month
        ||| self.year == other.year && self.month == other.month && self.day < other.day
    }

    /// The last date that can be represented.
    pub open spec fn last() -> Date {
        Date { year: MAX_YEAR, month: 12, day: 31 }
    }

    /// The calendar day after `self`, if it can be represented.
    pub open spec fn next(self) -> Option<Date> {
        if (self.day as int) < days_in_month(self.year as int, self.month as int) {
            Some(Date { year: self.year, month: self.month, day: (self.day + 1) as u32 })
        } else if self.month < 12 {
            Some(Date { year: self.year, month: (self.month + 1) as u32, day: 1 })
        } else if self.year < MAX_YEAR {
            Some(Date { year: (self.year + 1) as i32, month: 1, day: 1 })
        } else {
            None
        }
    }
}

/// The year as `%Y` writes it: four digits at least, with an explicit sign
/// outside the years 0 to 9999.
pub open spec fn year_text(year: int) -> Seq<char> {
    if year < 0 {
        seq!['-'] + zero_padded((-year) as nat, 4)
    } else if year > 9999 {
        seq!['+'] + zero_padded(year as nat, 4)
    } else {
        zero_padded(year as nat, 4)
    }
}

/// The `YYYY-MM-DD` text of a date.
pub open spec fn date_text(d: Date) -> Seq<char> {
    year_text(d.year as int) + seq!['-'] + zero_padded(d.month as nat, 2) + seq!['-']
        + zero_padded(d.day as nat, 2)
}

/// Whether `year` is a leap year.
pub fn leap_year(year: i32) -> (r: bool)
    requires
        MIN_YEAR <= year <= MAX_YEAR,
    ensures
        r == is_leap_year(year as int),
{
    let shifted: u32 = (year as i64 + 400000) as u32;
    assert(shifted % 4 == (year as int) % 4);
    assert(shifted % 100 == (year as int) % 100);
    assert(shifted % 400 == (year as int) % 400);
    (shifted % 4 == 0 && shifted % 100 != 0) || shifted % 400 == 0
}

/// The number of days in a month of a year.
pub fn month_length(year: i32, month: u32) -> (n: u32)
    requires
        MIN_YEAR <= year <= MAX_YEAR,
    ensures
        n == days_in_month(year as int, month as int),
{
    if month == 2 {
        if leap_year(year) {
            29
        } else {
            28
        }
    } else if month == 4 || month == 6 || month == 9 || month == 11 {
        30
    } else {
        31
    }
}

impl Date {
    /// Whether `self` falls strictly before `other`.
    pub fn is_before(&self, other: &Date) -> (r: bool)
        ensures
            r == self.before(*other),
    {
        self.year < other.year || (self.year == other.year && self.month < other.month) || (
        self.year == other.year && self.month == other.month && self.day < other.day)
    }

    /// The following calendar day, or `None` for the last representable date.
    pub fn succ(&self) -> (r: Option<Date>)
        requires
            self.valid(),
        ensures
            r == self.next(),
    {
        let len = month_length(self.year, self.month);
        if self.day < len {
            Some(Date { year: self.year, month: self.month, day: self.day + 1 })
        } else if self.month < 12 {
            Some(Date { year: self.year, month: self.month + 1, day: 1 })
        } else if self.year < MAX_YEAR {
            Some(Date { year: self.year + 1, month: 1, day: 1 })
        } else {
            None
        }
    }

    /// The `YYYY-MM-DD` text of the date.
    pub fn to_text(&self) -> (s: String)
        requires
            self.valid(),
        ensures
            s@ == date_text(*self),
    {
        let mut s = String::new();
        if self.year < 0 {
            proof { reveal_strlit("-"); }
            s.append("-");
            push_zero_padded(&mut s, (-(self.year as i64)) as u32, 4);
        } else if self.year > 9999 {
            proof { reveal_strlit("+"); }
            s.append("+");
            push_zero_padded(&mut s, self.year as u32, 4);
        } else {
            push_zero_padded(&mut s, self.year as u32, 4);
        }
        proof { reveal_strlit("-"); }
        s.append("-");
        push_zero_padded(&mut s, self.month, 2);
        s.append("-");
        push_zero_padded(&mut s, self.day, 2);
        assert(s@ =~= date_text(*self));
        s
    }
}

/// What `chrono::NaiveDate::parse_from_str` gives for a text and a format,
/// as year, month and day.
pub uninterp spec fn spec_parse_date(text: Seq<char>, fmt: Seq<char>) -> Option<(i32, u32, u32)>;

/// The date that `chrono::NaiveDate::parse_from_str(text, fmt)` reads, if any.
///
/// Trusted: the result is the named `spec_parse_date` of the text and the format,
/// and a date that chrono hands back lies in chrono's range (years `MIN_YEAR` to
/// `MAX_YEAR`) and exists in the calendar, as every `NaiveDate` does. Under the
/// format `%Y-%m-%d` chrono reads only white space, a sign, digits and the
/// literal `-` separators, and refuses what is left over, so a text it accepts
/// holds no `.`. chrono also reads back the `YYYY-MM-DD` text it writes for a
/// date (a sign and at least four digits outside the years 0 to 9999, exactly
/// four inside, two for month and day), as `date_text` states it. Which texts a
/// format accepts is otherwise left unsaid.
#[verifier::external_body]
pub(crate) fn parse_date(text: &str, fmt: &str) -> (r: Option<Date>)
    ensures
        r == match spec_parse_date(text@, fmt@) {
            Some((y, m, d)) => Some(Date { year: y, month: m, day: d }),
            None => None,
        },
        r matches Some(d) ==> d.valid(),
        fmt@ == "%Y-%m-%d"@ && r is Some ==> forall|i: int| 0 <= i < text@.len() ==> text@[i] != '.',
        forall|d: Date|
            fmt@ == "%Y-%m-%d"@ && d.valid() && text@ == #[trigger] date_text(d) ==> r == Some(d),
{
    match chrono::NaiveDate::parse_from_str(text, fmt) {
        Ok(d) => Some(Date { year: d.year(), month: d.month(), day: d.day() }),
        Err(_) => None,
    }
}

/// Today's date in the machine's local time zone, from `chrono::Local::now()`.
///
/// Trusted: the date is a valid one in chrono's range, as every `NaiveDate` is;
/// which date it is depends on the clock and is left unsaid.
#[verifier::external_body]
pub(crate) fn local_today() -> (d: Date)
    ensures
        d.valid(),
{
    let d = chrono::Local::now().date_naive();
    Date { year: d.year(), month: d.month(), day: d.day() }
}

/// Month lengths are the Gregorian ones: thirty days hath April, June,
/// September and November; February has 29 days in a leap year and 28
/// otherwise; the other months have 31.
pub proof fn lemma_gregorian_month_lengths(year: int)
    ensures
        days_in_month(year, 1) == 31,
        days_in_month(year, 2) == if is_leap_year(year) { 29int } else { 28int },
        days_in_month(year, 3) == 31,
        days_in_month(year, 4) == 30,
        days_in_month(year, 5) == 31,
        days_in_month(year, 6) == 30,
        days_in_month(year, 7) == 31,
        days_in_month(year, 8) == 31,
        days_in_month(year, 9) == 30,
        days_in_month(year, 10) == 31,
        days_in_month(year, 11) == 30,
        days_in_month(year, 12) == 31,
{
}

/// A year has 366 days when it is a leap year and 365 otherwise, and leap years
/// are the multiples of 4 except the multiples of 100 that are not multiples of 400.
pub proof fn lemma_year_length(year: int)
    ensures
        days_in_month(year, 1) + days_in_month(year, 2) + days_in_month(year, 3) + days_in_month(year, 4)
            + days_in_month(year, 5) + days_in_month(year, 6) + days_in_month(year, 7)
            + days_in_month(year, 8) + days_in_month(year, 9) + days_in_month(year, 10)
            + days_in_month(year, 11) + days_in_month(year, 12) == if is_leap_year(year) { 366int } else { 365int },
        year % 400 == 0 ==> is_leap_year(year),
        year % 100 == 0 && year % 400 != 0 ==> !is_leap_year(year),
        year % 4 == 0 && year % 100 != 0 ==> is_leap_year(year),
        year % 4 != 0 ==> !is_leap_year(year),
{
}

/// The day after a valid date, comes after it, and no valid date
/// lies between the two; only the last representable date has no next day.
pub proof fn lemma_next_is_successor(d: Date, e: Date)
    requires
        d.valid(),
        e.valid(),
    ensures
        d.next() is None <==> d == Date::last(),
        d.next() matches Some(n) ==> n.valid() && d.before(n) && !(d.before(e) && e.before(n)),
{
}

} // verus!
