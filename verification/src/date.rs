use chrono::Datelike;
use vstd::prelude::*;

verus! {

/// The form in which dates are typed in and shown: day, month, year.
pub const DATE_FORMAT: &'static str = "%d-%m-%Y";

/// A day of the calendar.
#[derive(Debug, Clone, Copy, PartialEq, Eq, PartialOrd, Ord, Hash)]
pub struct Date {
    pub year: i32,
    pub month: u32,
    pub day: u32,
}

impl Date {
    /// The month and the day are in the range that a calendar has.
    pub open spec fn in_range(self) -> bool {
        1 <= self.month <= 12 && 1 <= self.day <= 31
    }

    /// A number that grows with the date: of two dates in range the later
    /// one has the greater number.
    pub open spec fn ordinal(self) -> int {
        self.year * 10000 + self.month * 100 + self.day
    }

    /// Of two dates in range, the one with the smaller number is the
    /// earlier one: its year is smaller, or the years are the same and its
    /// month is smaller, or years and months are the same and its day is
    /// smaller.
    pub proof fn lemma_ordinal_follows_the_calendar(self, other: Date)
        requires
            self.in_range(),
            other.in_range(),
        ensures
            self.ordinal() < other.ordinal() <==> (self.year < other.year || (self.year
                == other.year && (self.month < other.month || (self.month == other.month
                && self.day < other.day)))),
            self.ordinal() == other.ordinal() <==> self == other,
    {
    }
}

/// The date by which a task is due, if it has one.
#[derive(Debug, Clone, Copy, PartialEq, Eq, PartialOrd, Ord, Hash)]
pub struct TaskDate(pub Option<Date>);

/// Why a text could not be turned into a date, or a date into a text.
#[derive(Debug, Clone, Copy, PartialEq, Eq, Structural)]
pub enum DateError {
    /// The text is not a date in the form day-month-year.
    Unreadable,
    /// There is no date to show.
    Missing,
}

impl DateError {
    /// A line that says what went wrong.
    pub fn to_string(&self) -> (r: String)
        ensures
            r@ == (match self {
                DateError::Unreadable => "input is not a date in the form dd-mm-yyyy"@,
                DateError::Missing => "Cannot convert None to String"@,
            }),
    {
        match self {
            DateError::Unreadable => "input is not a date in the form dd-mm-yyyy".to_owned(),
            DateError::Missing => "Cannot convert None to String".to_owned(),
        }
    }
}

/// What the date parser says of a text that it cannot read.
#[verifier::external_type_specification]
#[verifier::external_body]
pub struct ExParseError(chrono::ParseError);

/// The date that `chrono::NaiveDate::parse_from_str` reads out of a text in
/// the form `%d-%m-%Y`, or `None` for a text that it refuses.
pub uninterp spec fn parsed_date(text: Seq<char>) -> Option<Date>;

/// The text that `chrono::NaiveDate::format` writes for a date in the form
/// `%d-%m-%Y`, or `None` for a year, month and day that
/// `chrono::NaiveDate::from_ymd_opt` does not take for a date.
pub uninterp spec fn formatted_date(year: int, month: int, day: int) -> Option<Seq<char>>;

/// Calls `chrono::NaiveDate::parse_from_str` with the form `%d-%m-%Y` and
/// reads year, month and day off the date that comes back. The contract
/// gives the outcome its name and repeats what the accessors promise: a
/// month from 1 to 12 and a day from 1 to 31.
#[verifier::external_body]
fn parse_day_month_year(text: &str) -> (r: Result<Date, chrono::ParseError>)
    ensures
        r is Ok <==> parsed_date(text@) is Some,
        r matches Ok(date) ==> parsed_date(text@) == Some(date) && date.in_range(),
{
    let parsed = chrono::NaiveDate::parse_from_str(text, "%d-%m-%Y")?;
    Ok(Date { year: parsed.year(), month: parsed.month(), day: parsed.day() })
}

/// Calls `chrono::NaiveDate::from_ymd_opt` and, on the date that comes
/// back, `format` with the form `%d-%m-%Y`. The contract gives the outcome
/// its name.
#[verifier::external_body]
fn format_day_month_year(date: &Date) -> (r: Option<String>)
    ensures
        r is Some <==> formatted_date(date.year as int, date.month as int, date.day as int)
            is Some,
        r matches Some(text) ==> formatted_date(
            date.year as int,
            date.month as int,
            date.day as int,
        ) == Some(text@),
{
    let date = chrono::NaiveDate::from_ymd_opt(date.year, date.month, date.day)?;
    Some(date.format("%d-%m-%Y").to_string())
}

impl Date {
    /// The date as a text in the form day-month-year, where the calendar
    /// has such a day.
    pub fn format(&self) -> (r: Option<String>)
        ensures
            r is Some <==> formatted_date(self.year as int, self.month as int, self.day as int)
                is Some,
            r matches Some(text) ==> formatted_date(
                self.year as int,
                self.month as int,
                self.day as int,
            ) == Some(text@),
    {
        format_day_month_year(self)
    }
}

impl TaskDate {
    /// A number by which due dates are put in order: a task without a date
    /// comes before every task with one, and tasks with dates follow the
    /// calendar.
    pub open spec fn sort_key(self) -> int {
        match self.0 {
            None => -30_000_000_000_000,
            Some(date) => date.ordinal(),
        }
    }

    /// The number by which due dates are put in order.
    pub fn key(&self) -> (r: i64)
        ensures
            r == self.sort_key(),
            -30_000_000_000_000 <= r <= 30_000_000_000_000,
    {
        match self.0 {
            None => -30_000_000_000_000,
            Some(date) => {
                let year: i64 = date.year as i64;
                let month: i64 = date.month as i64;
                let day: i64 = date.day as i64;
                year * 10000 + month * 100 + day
            },
        }
    }

    /// Reads a date in the form day-month-year. A text that the parser
    /// refuses gives `Unreadable`.
    pub fn try_from(value: String) -> (r: Result<TaskDate, DateError>)
        ensures
            r == (match parsed_date(value@) {
                Some(date) => Ok::<TaskDate, DateError>(TaskDate(Some(date))),
                None => Err::<TaskDate, DateError>(DateError::Unreadable),
            }),
            r matches Ok(TaskDate(Some(date))) ==> date.in_range(),
    {
        match parse_day_month_year(value.as_str()) {
            Ok(date) => Ok(TaskDate(Some(date))),
            Err(_) => Err(DateError::Unreadable),
        }
    }

    /// The date as a text in the form day-month-year. Where there is no
    /// date, or none that the calendar has, there is no text: `Missing`.
    pub fn try_into(self) -> (r: Result<String, DateError>)
        ensures
            r is Ok <==> (self.0 matches Some(date) && formatted_date(
                date.year as int,
                date.month as int,
                date.day as int,
            ) is Some),
            r matches Ok(text) ==> self.0 matches Some(date) && formatted_date(
                date.year as int,
                date.month as int,
                date.day as int,
            ) == Some(text@),
            r matches Err(e) ==> e == DateError::Missing,
    {
        match self.0 {
            Some(date) => match format_day_month_year(&date) {
                Some(text) => Ok(text),
                None => Err(DateError::Missing),
            },
            None => Err(DateError::Missing),
        }
    }
}

} // verus!
