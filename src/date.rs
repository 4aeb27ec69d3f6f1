//! Calendar dates as plain values, and reading them from text.
use vstd::prelude::*;
use chrono::Datelike;

verus! {

/// A calendar date of the proleptic Gregorian calendar.
#[derive(Clone, Copy, Debug, PartialEq, Eq, Structural)]
pub struct Date {
    pub year: i32,
    pub month: u32,
    pub day: u32,
}

pub open spec fn is_leap_year(y: int) -> bool {
    y % 4 == 0 && (y % 100 != 0 || y % 400 == 0)
}

pub open spec fn days_in_month(y: int, m: int) -> int {
    if m == 2 {
        if is_leap_year(y) { 29 } else { 28 }
    } else if m == 4 || m == 6 || m == 9 || m == 11 {
        30
    } else {
        31
    }
}

impl Date {
    /// The date exists in the calendar.
    pub open spec fn wf(&self) -> bool {
        1 <= self.month <= 12 && 1 <= self.day <= days_in_month(self.year as int, self.month as int)
    }

    /// The date as (year, month, day).
    pub open spec fn triple(&self) -> (int, int, int) {
        (self.year as int, self.month as int, self.day as int)
    }
}

/// The date that chrono reads from `s` with the format `fmt`, if any.
pub uninterp spec fn parsed_date_of(s: Seq<char>, fmt: Seq<char>) -> Option<(int, int, int)>;

/// Relies on `chrono::NaiveDate::parse_from_str`: the outcome depends on the
/// text and the format alone, and a `NaiveDate` is always a valid date.
#[verifier::external_body]
fn parse_with_format(s: &str, fmt: &str) -> (r: Option<Date>)
    ensures
        match r {
            Some(d) => parsed_date_of(s@, fmt@) == Some(d.triple()) && d.wf(),
            None => parsed_date_of(s@, fmt@) is None,
        },
{
    match chrono::NaiveDate::parse_from_str(s, fmt) {
        Ok(d) => Some(Date { year: d.year(), month: d.month(), day: d.day() }),
        Err(_) => None,
    }
}

/// The date written in `s` as `DD.MM.YYYY`, as chrono reads it.
pub open spec fn dmy_date_of(s: Seq<char>) -> Option<(int, int, int)> {
    parsed_date_of(s, "%d.%m.%Y"@)
}

/// Reads a date written as day.month.year.
pub fn parse_dmy(s: &str) -> (r: Option<Date>)
    ensures
        match r {
            Some(d) => dmy_date_of(s@) == Some(d.triple()) && d.wf(),
            None => dmy_date_of(s@) is None,
        },
{
    parse_with_format(s, "%d.%m.%Y")
}

} // verus!
