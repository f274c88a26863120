//! Calendar dates and the date that stands for "not set".

use vstd::prelude::*;
use chrono::Datelike;

verus! {

/// `chrono::format::ParseError`, carried through unopened.
#[verifier::external_type_specification]
#[verifier::external_body]
pub struct ExParseError(chrono::format::ParseError);

/// A day of the proleptic Gregorian calendar.
#[derive(Debug, Clone, Copy, PartialEq, Eq, Structural)]
pub struct CalendarDate {
    pub year: i32,
    /// From 1 for January.
    pub month: u32,
    /// From 1.
    pub day: u32,
}

/// The day that `chrono` reads from `text` under the format `format`, or
/// `None` where it reads none.
pub uninterp spec fn parsed_date(text: Seq<char>, format: Seq<char>) -> Option<CalendarDate>;

/// Calls `chrono::naive::NaiveDate::parse_from_str` and takes the year,
/// month and day of the result.  The parse looks at its two arguments only;
/// what it yields stands under the name `parsed_date`, and an error is
/// returned exactly where that name gives `None`.
#[verifier::external_body]
fn parse_date(text: &str, format: &str) -> (date: Result<CalendarDate, chrono::format::ParseError>)
    ensures
        date matches Ok(day) ==> parsed_date(text@, format@) == Some(day),
        date is Err ==> parsed_date(text@, format@) is None,
{
    match chrono::naive::NaiveDate::parse_from_str(text, format) {
        Ok(date) => Ok(CalendarDate { year: date.year(), month: date.month(), day: date.day() }),
        Err(e) => Err(e),
    }
}

/// Reads a day from `text` under the `strftime`-style format `format`.
pub fn read_date(text: &str, format: &str) -> (date: Option<CalendarDate>)
    ensures
        date == parsed_date(text@, format@),
{
    match parse_date(text, format) {
        Ok(day) => Some(day),
        Err(_) => None,
    }
}

/// The date used where none is known: `1970-01-01`, read as year, month
/// and day.
pub fn default_date() -> (date: Option<CalendarDate>)
    ensures
        date == parsed_date("1970-01-01"@, "%Y-%m-%d"@),
{
    read_date("1970-01-01", "%Y-%m-%d")
}

} // verus!
