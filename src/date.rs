//! Calendar dates, as far as the tracker needs them: parsing the stored
//! `YYYY-MM-DD` text and deciding whether a due date has passed.

use vstd::prelude::*;

use chrono::Datelike;

verus! {

/// A calendar date without a time of day.
#[derive(Clone, Copy, Debug, PartialEq, Eq, Structural)]
pub struct DateOnly {
    pub year: i32,
    pub month: u32,
    pub day: u32,
}

/// What chrono makes of a text under the format `%Y-%m-%d`: the year, month
/// and day of the date it denotes, or `None` when the text is no such date.
pub uninterp spec fn parsed_ymd(s: Seq<char>) -> Option<(int, int, int)>;

impl DateOnly {
    pub open spec fn ymd(self) -> (int, int, int) {
        (self.year as int, self.month as int, self.day as int)
    }
}

/// `a` is a strictly earlier day than `b`.
pub open spec fn date_before(a: (int, int, int), b: (int, int, int)) -> bool {
    a.0 < b.0 || (a.0 == b.0 && (a.1 < b.1 || (a.1 == b.1 && a.2 < b.2)))
}

/// A due date given as stored text has passed by `today`; a text that is no
/// date never has.
pub open spec fn due_text_passed(due: Seq<char>, today: DateOnly) -> bool {
    match parsed_ymd(due) {
        Some(d) => date_before(d, today.ymd()),
        None => false,
    }
}

/// Relies on `chrono::NaiveDate::parse_from_str` with the format `%Y-%m-%d`:
/// the parsed date's year, month and day, or `None` on a parse error.
#[verifier::external_body]
fn parse_ymd(s: &str) -> (r: Option<DateOnly>)
    ensures
        r is None <==> parsed_ymd(s@) is None,
        r matches Some(d) ==> parsed_ymd(s@) == Some(d.ymd()),
{
    match chrono::NaiveDate::parse_from_str(s, "%Y-%m-%d") {
        Ok(d) => Some(DateOnly { year: d.year(), month: d.month(), day: d.day() }),
        Err(_) => None,
    }
}

/// Reads a stored due date; `None` where the text is no `YYYY-MM-DD` date.
pub fn parse_due_date(s: &str) -> (r: Option<DateOnly>)
    ensures
        r is None <==> parsed_ymd(s@) is None,
        r matches Some(d) ==> parsed_ymd(s@) == Some(d.ymd()),
{
    parse_ymd(s)
}

/// A task due on `due_date` is overdue on `today` when `today` is a later day.
pub fn is_overdue(due_date: &DateOnly, today: &DateOnly) -> (r: bool)
    ensures
        r == date_before(due_date.ymd(), today.ymd()),
{
    if due_date.year != today.year {
        due_date.year < today.year
    } else if due_date.month != today.month {
        due_date.month < today.month
    } else {
        due_date.day < today.day
    }
}

/// The overdue decision on a stored due date: a text that does not parse is
/// never overdue, so one malformed row cannot spoil a listing.
pub fn due_date_passed(due_date: &str, today: &DateOnly) -> (r: bool)
    ensures
        r == due_text_passed(due_date@, *today),
{
    match parse_ymd(due_date) {
        Some(d) => is_overdue(&d, today),
        None => false,
    }
}

} // verus!
