//! Calendar dates without a time of day.

use vstd::prelude::*;
use chrono::Datelike;

verus! {

/// A calendar date.
#[derive(Clone, Copy, Debug, PartialEq, Eq, Structural)]
pub struct Date {
    pub year: i32,
    pub month: u32,
    pub day: u32,
}

/// The date that a text in the form year-month-day stands for, if it stands
/// for one.
pub uninterp spec fn calendar_date(text: Seq<char>) -> Option<Date>;

/// `chrono::NaiveDate`'s `FromStr`, with the date taken apart into year,
/// month and day. The contract names the outcome as a function of the text.
#[verifier::external_body]
pub(crate) fn parse_date(text: &str) -> (date: Option<Date>)
    ensures
        date == calendar_date(text@),
{
    text.parse::<chrono::NaiveDate>().ok().map(
        |date| Date { year: date.year(), month: date.month(), day: date.day() },
    )
}

impl Date {
    /// Whether this date comes earlier in the calendar than `other`.
    pub open spec fn is_before(self, other: Date) -> bool {
        ||| self.year < other.year
        ||| self.year == other.year && self.month < other.month
        ||| self.year == other.year && self.month == other.month && self.day < other.day
    }

    /// Whether this date comes earlier in the calendar than `other`.
    pub fn before(&self, other: &Date) -> (earlier: bool)
        ensures
            earlier == self.is_before(*other),
    {
        if self.year != other.year {
            self.year < other.year
        } else if self.month != other.month {
            self.month < other.month
        } else {
            self.day < other.day
        }
    }
}

} // verus!
