//! Calendar dates as the hours log uses them: read from text, compared, and
//! grouped into time frames.

use chrono::format::ParseError;
use chrono::{Datelike, NaiveDate};
use vstd::prelude::*;

verus! {

/// `chrono::format::ParseError`: why a text is no date, of which nothing is
/// known here.
#[verifier::external_type_specification]
#[verifier::external_body]
pub struct ExParseError(chrono::format::ParseError);

/// A day of the calendar.
#[derive(Clone, Copy, Debug, PartialEq, Eq, Structural)]
pub struct Date {
    pub year: i32,
    pub month: u32,
    pub day: u32,
}

/// The date that chrono reads from `text` under the format `format`, where
/// it reads one.
pub uninterp spec fn date_parsed(text: Seq<char>, format: Seq<char>) -> Option<Date>;

/// `chrono::NaiveDate::parse_from_str`, with year, month and day of the date
/// found. The call fails or gives a date, and which of the two, and which
/// date, depends on the two texts alone.
#[verifier::external_body]
pub(crate) fn parse_date(text: &str, format: &str) -> (date: Result<Date, ParseError>)
    ensures
        match date {
            Ok(found) => date_parsed(text@, format@) == Some(found),
            Err(_) => date_parsed(text@, format@).is_none(),
        },
{
    match NaiveDate::parse_from_str(text, format) {
        Ok(found) => Ok(Date { year: found.year(), month: found.month(), day: found.day() }),
        Err(error) => Err(error),
    }
}

impl Date {
    /// Whether this day comes before `other`.
    pub open spec fn precedes(self, other: Date) -> bool {
        ||| self.year < other.year
        ||| self.year == other.year && self.month < other.month
        ||| self.year == other.year && self.month == other.month && self.day < other.day
    }

    /// Compares by year, then month, then day.
    pub fn is_before(&self, other: &Date) -> (before: bool)
        ensures
            before == self.precedes(*other),
    {
        self.year < other.year || (self.year == other.year && (self.month < other.month || (
        self.month == other.month && self.day < other.day)))
    }
}

/// No day comes before itself, and of two different days exactly one comes
/// before the other.
pub proof fn lemma_days_are_ordered(a: Date, b: Date, c: Date)
    ensures
        !a.precedes(a),
        a != b ==> (a.precedes(b) <==> !b.precedes(a)),
        a.precedes(b) && b.precedes(c) ==> a.precedes(c),
{
}

/// Which end of a time frame could not be read.
pub enum DateError {
    Start(ParseError),
    End(ParseError),
}

impl DateError {
    /// What the user is told.
    pub open spec fn message_text(self) -> Seq<char> {
        match self {
            DateError::Start(_) => "Failed to parse start date"@,
            DateError::End(_) => "Failed to parse end date"@,
        }
    }

    pub fn message(&self) -> (message: String)
        ensures
            message@ == self.message_text(),
    {
        match self {
            DateError::Start(_) => String::from_str("Failed to parse start date"),
            DateError::End(_) => String::from_str("Failed to parse end date"),
        }
    }
}

/// What one end of a time frame comes to: open where no text is given, the
/// date read from the text where there is one, and nothing where the text
/// is no date.
pub open spec fn end_read(text: Option<String>, format: Seq<char>) -> Option<Option<Date>> {
    match text {
        None => Some(None),
        Some(given) => match date_parsed(given@, format) {
            Some(date) => Some(Some(date)),
            None => None,
        },
    }
}

/// Reads the two ends of a time frame. The start is read first, so where
/// both are no dates the error names the start.
pub fn parse_dates(start_date: Option<String>, end_date: Option<String>, fmt_str: &str) -> (dates:
    Result<(Option<Date>, Option<Date>), DateError>)
    ensures
        match dates {
            Ok((start, end)) => end_read(start_date, fmt_str@) == Some(start) && end_read(
                end_date,
                fmt_str@,
            ) == Some(end),
            Err(DateError::Start(_)) => end_read(start_date, fmt_str@).is_none(),
            Err(DateError::End(_)) => end_read(start_date, fmt_str@).is_some() && end_read(
                end_date,
                fmt_str@,
            ).is_none(),
        },
{
    let sdate: Option<Date> = match start_date {
        Some(text) => match parse_date(text.as_str(), fmt_str) {
            Ok(date) => Some(date),
            Err(error) => {
                return Err(DateError::Start(error));
            },
        },
        None => None,
    };
    let edate: Option<Date> = match end_date {
        Some(text) => match parse_date(text.as_str(), fmt_str) {
            Ok(date) => Some(date),
            Err(error) => {
                return Err(DateError::End(error));
            },
        },
        None => None,
    };
    Ok((sdate, edate))
}

/// Whether `date` lies in the time frame from `start` up to, but not
/// including, `end`; an end that is `None` is open.
pub open spec fn in_range(date: Date, start: Option<Date>, end: Option<Date>) -> bool {
    &&& match start {
        Some(first) => !date.precedes(first),
        None => true,
    }
    &&& match end {
        Some(limit) => date.precedes(limit),
        None => true,
    }
}

/// Tells whether `date` lies in the time frame.
pub fn within_date_range(date: Date, start_date: Option<Date>, end_date: Option<Date>) -> (within:
    bool)
    ensures
        within == in_range(date, start_date, end_date),
{
    let sdate_before: bool = match start_date {
        Some(first) => !date.is_before(&first),
        None => true,
    };
    let edate_after: bool = match end_date {
        Some(limit) => date.is_before(&limit),
        None => true,
    };
    sdate_before && edate_after
}

/// How much of each end of a time frame its heading spells out.
#[derive(Clone, Copy, Debug, PartialEq, Eq, Structural)]
pub enum Heading {
    /// Both ends in one month: month and day, then day and year.
    SameMonth,
    /// Both ends in one year: month and day, then the full date.
    SameYear,
    /// Two full dates.
    Full,
    /// Open at the end: "since" and the full first date.
    Since,
    /// Open at the start: "before" and the full end date.
    Before,
    /// Open at both ends.
    AllTime,
}

/// The heading for a time frame: the two ends are told apart by year and
/// month only.
pub open spec fn heading_of(start: Option<Date>, end: Option<Date>) -> Heading {
    match (start, end) {
        (Some(first), Some(last)) => if first.year != last.year {
            Heading::Full
        } else if first.month != last.month {
            Heading::SameYear
        } else {
            Heading::SameMonth
        },
        (Some(_), None) => Heading::Since,
        (None, Some(_)) => Heading::Before,
        (None, None) => Heading::AllTime,
    }
}

/// Picks the heading for a time frame.
pub fn heading(start_date: Option<Date>, end_date: Option<Date>) -> (heading: Heading)
    ensures
        heading == heading_of(start_date, end_date),
{
    match (start_date, end_date) {
        (Some(first), Some(last)) => {
            if first.year == last.year {
                if first.month == last.month {
                    Heading::SameMonth
                } else {
                    Heading::SameYear
                }
            } else {
                Heading::Full
            }
        },
        (Some(_), None) => Heading::Since,
        (None, Some(_)) => Heading::Before,
        (None, None) => Heading::AllTime,
    }
}

} // verus!
