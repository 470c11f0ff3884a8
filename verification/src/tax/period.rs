//! The span of days that a tax year covers.

use crate::date::{civil_day_number, Date};
use vstd::prelude::*;

verus! {

/// A closed range of days: both ends belong to it.
#[derive(Clone, Copy, Debug, PartialEq, Eq, Structural)]
pub struct TaxPeriod {
    /// First day of the period.
    pub first_day: Date,
    /// Last day of the period.
    pub last_day: Date,
}

/// First and last day number of a calendar year, January 1 and December 31,
/// where the calendar holds both.
pub open spec fn calendar_year_days(year: int) -> Option<(int, int)> {
    match (civil_day_number(year, 1, 1), civil_day_number(year, 12, 31)) {
        (Some(first), Some(last)) => Some((first, last)),
        _ => None,
    }
}

impl TaxPeriod {
    /// Whether the day with number `day` lies in the period.
    pub open spec fn covers(self, day: int) -> bool {
        self.first_day@ <= day <= self.last_day@
    }

    /// Whether an optional day lies in the period; an absent one does not.
    pub open spec fn covers_dated(self, date: Option<Date>) -> bool {
        match date {
            Some(d) => self.covers(d@),
            None => false,
        }
    }

    /// The period from `first_day` to `last_day`, both included.
    pub fn new(first_day: Date, last_day: Date) -> (r: TaxPeriod)
        ensures
            r.first_day == first_day,
            r.last_day == last_day,
    {
        TaxPeriod { first_day, last_day }
    }

    /// The period of a calendar year, from its January 1 to its December 31.
    pub fn calendar_year(year: i32) -> (r: Option<TaxPeriod>)
        ensures
            r matches Some(p) ==> calendar_year_days(year as int) == Some(
                (p.first_day@, p.last_day@),
            ),
            r is None <==> calendar_year_days(year as int) is None,
    {
        match Date::from_ymd(year, 1, 1) {
            Some(first_day) => match Date::from_ymd(year, 12, 31) {
                Some(last_day) => Some(TaxPeriod { first_day, last_day }),
                None => None,
            },
            None => None,
        }
    }

    /// Whether a date lies in the period.
    pub fn contains(&self, date: Date) -> (r: bool)
        ensures
            r == self.covers(date@),
    {
        date.is_within(self.first_day, self.last_day)
    }
}

} // verus!
