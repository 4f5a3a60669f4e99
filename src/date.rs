//! Calendar dates as plain values, with day arithmetic done by chrono.
use chrono::Datelike;
use vstd::prelude::*;

verus! {

/// A calendar day of the proleptic Gregorian calendar, as year, month (1..=12)
/// and day of month (1..=31).
#[derive(Clone, Copy, Debug, PartialEq, Eq, Structural)]
pub struct CalDate {
    pub year: i32,
    pub month: u32,
    pub day: u32,
}

/// The date `n` days before the date `(year, month, day)`, or `None` where that
/// triple is no valid date or the result falls outside the supported range.
pub uninterp spec fn days_earlier(year: int, month: int, day: int, n: int) -> Option<(int, int, int)>;

/// Lexicographic order on (year, month, day), which is calendar order for valid dates.
pub open spec fn date_le(a: CalDate, b: CalDate) -> bool {
    a.year < b.year || (a.year == b.year && (a.month < b.month || (a.month == b.month
        && a.day <= b.day)))
}

pub open spec fn date_lt(a: CalDate, b: CalDate) -> bool {
    date_le(a, b) && a != b
}

/// What [`CalDate::checked_sub_days`] returns.
pub open spec fn sub_days_spec(d: CalDate, n: int) -> Option<CalDate> {
    match days_earlier(d.year as int, d.month as int, d.day as int, n) {
        Some(t) => Some(CalDate { year: t.0 as i32, month: t.1 as u32, day: t.2 as u32 }),
        None => None,
    }
}

/// Relies on chrono's `NaiveDate::checked_sub_days`: the date `n` days earlier,
/// `None` when it is out of chrono's range; the triple is checked as a date by
/// `NaiveDate::from_ymd_opt` and read back with `year`, `month` and `day`.
#[verifier::external_body]
fn chrono_sub_days(year: i32, month: u32, day: u32, n: u64) -> (r: Option<(i32, u32, u32)>)
    ensures
        r matches Some(t) ==> days_earlier(year as int, month as int, day as int, n as int)
            == Some((t.0 as int, t.1 as int, t.2 as int)),
        r is None ==> days_earlier(year as int, month as int, day as int, n as int) is None,
{
    let d = chrono::NaiveDate::from_ymd_opt(year, month, day)?;
    let e = d.checked_sub_days(chrono::Days::new(n))?;
    Some((e.year(), e.month(), e.day()))
}

impl CalDate {
    pub fn new(year: i32, month: u32, day: u32) -> (r: CalDate)
        ensures
            r == (CalDate { year, month, day }),
    {
        CalDate { year, month, day }
    }

    /// The date `n` days before this one; `None` where this is no valid date or
    /// the result is out of range.
    pub fn checked_sub_days(&self, n: u64) -> (r: Option<CalDate>)
        ensures
            r == sub_days_spec(*self, n as int),
    {
        match chrono_sub_days(self.year, self.month, self.day, n) {
            Some(t) => {
                let r = CalDate { year: t.0, month: t.1, day: t.2 };
                Some(r)
            },
            None => None,
        }
    }
}

} // verus!
