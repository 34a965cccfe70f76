//! The one environment-dependent input of the pipeline: today's UTC date.
//!
//! The trigger fires once per period; the run then derives its target date
//! ("yesterday") from the current UTC day. Only reading the clock is trusted;
//! stepping back one day is verified calendar arithmetic.

use vstd::prelude::*;
use chrono::Datelike;
use crate::date::Date;
use crate::date::days_in_month;

verus! {

/// Relies on chrono's `Utc::now().date_naive()` and the `Datelike` accessors.
/// A `NaiveDate` is valid by construction, so `month()` ranges over 1..=12
/// and `day()` over 1..=the length of that month, both documented. `Utc::now`
/// never returns a pre-epoch time (on a host clock set before 1970 it panics
/// rather than return one — the one clock state this library assumes away),
/// so the year is at least 1970. Which day comes back depends on the system
/// clock, so nothing more is claimed of the value.
#[verifier::external_body]
fn utc_today_raw() -> (r: (i32, u32, u32))
    ensures
        1970 <= r.0,
        1 <= r.1 <= 12,
        1 <= r.2 <= days_in_month(r.0 as u32, r.1),
{
    let today = chrono::Utc::now().date_naive();
    (today.year(), today.month(), today.day())
}

/// The current UTC calendar day: always a real day of the calendar, and never
/// the minimal representable date, so a target day ("yesterday") exists.
pub fn current_utc_date() -> (d: Date)
    ensures
        d.wf(),
        !d.is_min(),
{
    let (y, m, day) = utc_today_raw();
    Date { year: y as u32, month: m, day }
}

} // verus!
