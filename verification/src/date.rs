//! Calendar dates as day numbers.

use chrono::Datelike;
use chrono::NaiveDate;
use vstd::prelude::*;
use vstd::string::StrSliceExecFns;

verus! {

/// A calendar date, held as its day number in the proleptic Gregorian
/// calendar: January 1 of year 1 is day 1.
#[derive(Clone, Copy, Debug, PartialEq, Eq, Structural)]
pub struct Date {
    /// The day number; zero and below are the days before year 1.
    pub days: i32,
}

/// The day number of the calendar date `year`-`month`-`day`, or `None` where
/// the calendar has no such date.
pub uninterp spec fn civil_day_number(year: int, month: int, day: int) -> Option<int>;

/// The day number of the date that `text` spells under the pattern `format`,
/// or `None` where `text` does not spell a date under it.
pub uninterp spec fn parsed_day_number(text: Seq<char>, format: Seq<char>) -> Option<int>;

/// Number of leading characters of a timestamp that hold its date.
pub const DATE_PREFIX_LEN: usize = 10;

/// The date that the first ten characters of `text` spell as `YYYY-MM-DD`.
/// A shorter text spells none.
pub open spec fn leading_date(text: Seq<char>) -> Option<int> {
    if text.len() >= DATE_PREFIX_LEN {
        parsed_day_number(text.subrange(0, DATE_PREFIX_LEN as int), "%Y-%m-%d"@)
    } else {
        None
    }
}

/// Calls `chrono::NaiveDate::from_ymd_opt` and takes the day number of the
/// date it returns with `Datelike::num_days_from_ce`. Trusted: the result is
/// the one that `civil_day_number` names for these arguments.
#[verifier::external_body]
fn ymd_day_number(year: i32, month: u32, day: u32) -> (r: Option<i32>)
    ensures
        r matches Some(n) ==> civil_day_number(year as int, month as int, day as int) == Some(
            n as int,
        ),
        r is None ==> civil_day_number(year as int, month as int, day as int) is None,
{
    match NaiveDate::from_ymd_opt(year, month, day) {
        Some(date) => Some(date.num_days_from_ce()),
        None => None,
    }
}

/// Calls `chrono::NaiveDate::parse_from_str` and takes the day number of the
/// date it returns with `Datelike::num_days_from_ce`. Trusted: the result is
/// the one that `parsed_day_number` names for this text and pattern; a parse
/// error gives `None`.
#[verifier::external_body]
fn text_day_number(text: &str, format: &str) -> (r: Option<i32>)
    ensures
        r matches Some(n) ==> parsed_day_number(text@, format@) == Some(n as int),
        r is None ==> parsed_day_number(text@, format@) is None,
{
    match NaiveDate::parse_from_str(text, format) {
        Ok(date) => Some(date.num_days_from_ce()),
        Err(_) => None,
    }
}

impl View for Date {
    type V = int;

    open spec fn view(&self) -> int {
        self.days as int
    }
}

impl Date {
    /// The date with the given day number.
    pub fn from_days(days: i32) -> (r: Date)
        ensures
            r@ == days,
    {
        Date { days }
    }

    /// The calendar date `year`-`month`-`day`, if there is one.
    pub fn from_ymd(year: i32, month: u32, day: u32) -> (r: Option<Date>)
        ensures
            r matches Some(d) ==> civil_day_number(year as int, month as int, day as int) == Some(
                d@,
            ),
            r is None <==> civil_day_number(year as int, month as int, day as int) is None,
    {
        match ymd_day_number(year, month, day) {
            Some(days) => Some(Date { days }),
            None => None,
        }
    }

    /// The date spelled by the first ten characters of a timestamp.
    pub fn parse_leading(text: &str) -> (r: Option<Date>)
        ensures
            r matches Some(d) ==> leading_date(text@) == Some(d@),
            r is None <==> leading_date(text@) is None,
    {
        if text.unicode_len() >= DATE_PREFIX_LEN {
            let head = text.substring_char(0, DATE_PREFIX_LEN);
            match text_day_number(head, "%Y-%m-%d") {
                Some(days) => Some(Date { days }),
                None => None,
            }
        } else {
            None
        }
    }

    /// Whole days from `earlier` to `self`; negative where `self` comes first.
    pub fn days_since(self, earlier: Date) -> (r: i64)
        ensures
            r == self@ - earlier@,
    {
        self.days as i64 - earlier.days as i64
    }

    /// Distance in days between two dates, whichever comes first.
    pub fn days_apart(self, other: Date) -> (r: i64)
        ensures
            r == day_distance(self@, other@),
    {
        if self.days > other.days {
            self.days as i64 - other.days as i64
        } else {
            other.days as i64 - self.days as i64
        }
    }

    /// Whether `self` lies in the closed range from `first` to `last`.
    pub fn is_within(self, first: Date, last: Date) -> (r: bool)
        ensures
            r == (first@ <= self@ <= last@),
    {
        first.days <= self.days && self.days <= last.days
    }
}

/// Symmetric distance between two day numbers.
pub open spec fn day_distance(a: int, b: int) -> int {
    if a > b {
        a - b
    } else {
        b - a
    }
}

} // verus!
