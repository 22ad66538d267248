use vstd::prelude::*;
use vstd::string::StringExecFns;
use crate::error::Error;

verus! {

/// First year the calendar accepts (proleptic Gregorian, common era).
pub const MIN_YEAR: i32 = 1;

/// Last year the calendar accepts.
pub const MAX_YEAR: i32 = 9999;

/// Whether `year` is a leap year in the proleptic Gregorian calendar.
pub open spec fn spec_is_leap_year(year: int) -> bool {
    year % 4 == 0 && (year % 100 != 0 || year % 400 == 0)
}

/// The number of days `year` holds.
pub open spec fn spec_days_in_year(year: int) -> int {
    if spec_is_leap_year(year) {
        366
    } else {
        365
    }
}

/// Whether `year` and the one-based `ordinal` of a day within it name a real
/// calendar day.
pub open spec fn date_parts_valid(year: int, ordinal: int) -> bool {
    MIN_YEAR <= year <= MAX_YEAR && 1 <= ordinal <= spec_days_in_year(year)
}

/// Message a rejected year/day pair carries.
pub open spec fn bad_date_text() -> Seq<char> {
    "the year and day of year do not name a real calendar date"@
}

/// Whether `year` is a leap year.
pub fn is_leap_year(year: i32) -> (leap: bool)
    requires
        1 <= year,
    ensures
        leap == spec_is_leap_year(year as int),
{
    year % 4 == 0 && (year % 100 != 0 || year % 400 == 0)
}

/// The number of days `year` holds: 366 in a leap year, 365 otherwise.
pub fn days_in_year(year: i32) -> (days: u16)
    requires
        1 <= year,
    ensures
        days == spec_days_in_year(year as int),
{
    if is_leap_year(year) {
        366
    } else {
        365
    }
}

/// A calendar day: a common-era year and the one-based ordinal of the day
/// within that year.
#[derive(Clone, Copy, PartialEq, Eq, Structural, Debug)]
pub struct Date {
    pub year: i32,
    pub ordinal: u16,
}

impl Date {
    /// Whether this value names a real calendar day.
    pub open spec fn is_valid(self) -> bool {
        date_parts_valid(self.year as int, self.ordinal as int)
    }

    /// Assemble a date from a year and a day-of-year, two independently
    /// user-entered fields. An out-of-range pair is a domain fault: it is
    /// rejected with `Error::Any`, never silently adjusted.
    pub fn from_ordinal_date(year: i32, ordinal: u16) -> (date: Result<Date, Error>)
        ensures
            date_parts_valid(year as int, ordinal as int) ==> (date matches Ok(day) && day == (Date {
                year,
                ordinal,
            })),
            !date_parts_valid(year as int, ordinal as int) ==> (date matches Err(e)
                && e matches Error::Any(message) && message@ == bad_date_text()),
    {
        if year < MIN_YEAR || year > MAX_YEAR || ordinal < 1 || ordinal > days_in_year(year) {
            Err(
                Error::Any(
                    String::from_str("the year and day of year do not name a real calendar date"),
                ),
            )
        } else {
            Ok(Date { year, ordinal })
        }
    }
}

impl Default for Date {
    /// The epoch day: the first of January 1970.
    fn default() -> (epoch: Date)
        ensures
            epoch == (Date { year: 1970, ordinal: 1u16 }),
            epoch.is_valid(),
    {
        Date { year: 1970, ordinal: 1 }
    }
}

} // verus!
