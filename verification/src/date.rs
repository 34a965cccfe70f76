//! Calendar dates in the proleptic Gregorian calendar (UTC).
//!
//! A message's calendar day and a summary's `date` column are plain
//! year/month/day triples; the pipeline only ever needs to step one day
//! backwards ("yesterday" relative to the trigger day), which is done here
//! with verified calendar arithmetic.

use vstd::prelude::*;

verus! {

/// A calendar date. Well-formed values (see [`Date::wf`]) have a year of at
/// least 1, a month in 1..=12 and a day that exists in that month.
#[derive(Clone, Copy, PartialEq, Eq, Structural, Debug, Hash)]
pub struct Date {
    pub year: u32,
    pub month: u32,
    pub day: u32,
}

/// Gregorian leap-year rule.
pub open spec fn is_leap_year(y: u32) -> bool {
    (y % 4 == 0 && y % 100 != 0) || y % 400 == 0
}

/// Number of days in month `m` of year `y`.
pub open spec fn days_in_month(y: u32, m: u32) -> u32 {
    if m == 2 {
        if is_leap_year(y) {
            29
        } else {
            28
        }
    } else if m == 4 || m == 6 || m == 9 || m == 11 {
        30
    } else {
        31
    }
}

impl Date {
    /// The date is a real day of the calendar.
    pub open spec fn wf(self) -> bool {
        &&& 1 <= self.year
        &&& 1 <= self.month <= 12
        &&& 1 <= self.day <= days_in_month(self.year, self.month)
    }

    /// The first representable day; it has no predecessor.
    pub open spec fn is_min(self) -> bool {
        self.year == 1 && self.month == 1 && self.day == 1
    }

    /// The calendar day immediately before `self`.
    pub open spec fn prev_spec(self) -> Date {
        if self.day > 1 {
            Date { year: self.year, month: self.month, day: (self.day - 1) as u32 }
        } else if self.month > 1 {
            Date {
                year: self.year,
                month: (self.month - 1) as u32,
                day: days_in_month(self.year, (self.month - 1) as u32),
            }
        } else {
            Date { year: (self.year - 1) as u32, month: 12, day: 31 }
        }
    }

    /// Runtime well-formedness test.
    pub fn check_wf(&self) -> (b: bool)
        ensures
            b == self.wf(),
    {
        1 <= self.year && 1 <= self.month && self.month <= 12 && 1 <= self.day && self.day
            <= days_in_month_exec(self.year, self.month)
    }

    /// Runtime test for the first representable day.
    pub fn check_min(&self) -> (b: bool)
        ensures
            b == self.is_min(),
    {
        self.year == 1 && self.month == 1 && self.day == 1
    }

    /// Validating constructor: `Some` exactly when the triple is a real day.
    pub fn new(year: u32, month: u32, day: u32) -> (r: Option<Date>)
        ensures
            r matches Some(d) ==> d == (Date { year, month, day }) && d.wf(),
            r is None <==> !(Date { year, month, day }).wf(),
    {
        let d = Date { year, month, day };
        if d.check_wf() {
            Some(d)
        } else {
            None
        }
    }

    /// The day before `self`: the pipeline's target date when `self` is the
    /// trigger day.
    pub fn yesterday(&self) -> (r: Date)
        requires
            self.wf(),
            !self.is_min(),
        ensures
            r == self.prev_spec(),
            r.wf(),
    {
        if self.day > 1 {
            Date { year: self.year, month: self.month, day: self.day - 1 }
        } else if self.month > 1 {
            Date {
                year: self.year,
                month: self.month - 1,
                day: days_in_month_exec(self.year, self.month - 1),
            }
        } else {
            Date { year: self.year - 1, month: 12, day: 31 }
        }
    }
}

/// Runtime month length, equal to [`days_in_month`].
pub fn days_in_month_exec(y: u32, m: u32) -> (r: u32)
    ensures
        r == days_in_month(y, m),
{
    if m == 2 {
        if (y % 4 == 0 && y % 100 != 0) || y % 400 == 0 {
            29
        } else {
            28
        }
    } else if m == 4 || m == 6 || m == 9 || m == 11 {
        30
    } else {
        31
    }
}

} // verus!
