//! Calendar days and the textual form in which a deadline is stored.

use chrono::Datelike;
use vstd::prelude::*;

verus! {

/// A calendar day. Days are ordered by year, then month, then day of month.
#[derive(Clone, Copy, Debug, PartialEq, Eq, Structural)]
pub struct Date {
    pub year: i32,
    pub month: u32,
    pub day: u32,
}

impl Date {
    /// `self` is a strictly earlier day than `other`.
    pub open spec fn precedes(self, other: Date) -> bool {
        ||| self.year < other.year
        ||| self.year == other.year && self.month < other.month
        ||| self.year == other.year && self.month == other.month && self.day < other.day
    }

    pub fn new(year: i32, month: u32, day: u32) -> (date: Date)
        ensures
            date == (Date { year, month, day }),
    {
        Date { year, month, day }
    }

    /// Whether `self` is a strictly earlier day than `other`.
    pub fn is_before(&self, other: &Date) -> (earlier: bool)
        ensures
            earlier == self.precedes(*other),
    {
        if self.year != other.year {
            self.year < other.year
        } else if self.month != other.month {
            self.month < other.month
        } else {
            self.day < other.day
        }
    }
}

/// The format in which deadlines are written: day, month and year as
/// numbers, separated by dots.
pub const DEADLINE_FORMAT: &'static str = "%d.%m.%Y";

/// What `chrono::NaiveDate::parse_from_str` makes of `text` under `format`:
/// the day it denotes, or `None` where chrono reports an error.
pub uninterp spec fn parsed_date(text: Seq<char>, format: Seq<char>) -> Option<Date>;

/// Calls `chrono::NaiveDate::parse_from_str(text, format)`, for the
/// deadline format only.
///
/// Trusted: the call returns for every text, and its outcome depends on the
/// two strings alone; it is named `parsed_date`. A successful parse is
/// handed on as its year, month and day of month; any error becomes `None`.
#[verifier::external_body]
fn parse_date(text: &str, format: &str) -> (date: Option<Date>)
    requires
        format@ == DEADLINE_FORMAT@,
    ensures
        date == parsed_date(text@, format@),
{
    match chrono::NaiveDate::parse_from_str(text, format) {
        Ok(day) => Some(Date { year: day.year(), month: day.month(), day: day.day() }),
        Err(_) => None,
    }
}

/// Reads a stored deadline. `None` where the text is not a day written in
/// `DEADLINE_FORMAT`.
pub fn parse_deadline(text: &str) -> (date: Option<Date>)
    ensures
        date == parsed_date(text@, DEADLINE_FORMAT@),
{
    parse_date(text, DEADLINE_FORMAT)
}

/// Whether a deadline, as far as it could be read, has passed on `today`:
/// it was read and names a day strictly before `today`.
pub open spec fn deadline_passed(due: Option<Date>, today: Date) -> bool {
    due matches Some(day) && day.precedes(today)
}

/// Decides from an already parsed deadline whether it has passed on `today`.
/// A deadline that could not be read never counts as passed.
pub fn has_passed(due: Option<Date>, today: Date) -> (passed: bool)
    ensures
        passed == deadline_passed(due, today),
{
    match due {
        Some(day) => day.is_before(&today),
        None => false,
    }
}

/// The order of days is strict and total: no day precedes itself, of two
/// different days exactly one precedes the other, and the order is transitive.
pub proof fn lemma_precedes_is_strict_total_order(a: Date, b: Date, c: Date)
    ensures
        !a.precedes(a),
        a.precedes(b) ==> !b.precedes(a),
        a != b ==> a.precedes(b) || b.precedes(a),
        a.precedes(b) && b.precedes(c) ==> a.precedes(c),
{
}

} // verus!
