//! The general questions: which measurement types, over which window, at
//! which interval.

use crate::text::chars::{trim, trimmed};
use chrono::TimeZone;
use vstd::prelude::*;
use vstd::string::*;

verus! {

/// A type of measurement.
#[derive(Debug, Clone, Copy, PartialEq, Eq, Structural)]
pub enum MeasurementType {
    Ping,
    Http,
    Traceroute,
}

impl MeasurementType {
    /// The types that are offered: ping and HTTP, in this order.
    pub fn all() -> (offered: &'static [MeasurementType])
        ensures
            offered@ == seq![MeasurementType::Ping, MeasurementType::Http],
    {
        let offered: &'static [MeasurementType] = &[MeasurementType::Ping, MeasurementType::Http];
        assert(offered@ =~= seq![MeasurementType::Ping, MeasurementType::Http]);
        offered
    }

    /// The name under which the type is offered.
    pub fn label(&self) -> (name: &'static str)
        ensures
            name@ == match *self {
                MeasurementType::Ping => "Ping"@,
                MeasurementType::Http => "HTTP"@,
                MeasurementType::Traceroute => "Traceroute"@,
            },
    {
        match self {
            MeasurementType::Ping => "Ping",
            MeasurementType::Http => "HTTP",
            MeasurementType::Traceroute => "Traceroute",
        }
    }
}

/// Accepts an interval in seconds: any but zero.
pub fn validate_interval(input: &u32) -> (outcome: Result<(), &'static str>)
    ensures
        outcome is Ok <==> *input > 0,
        outcome matches Err(text) ==> text@ == "Please enter a valid positive integer"@,
{
    if *input > 0 {
        Ok(())
    } else {
        Err("Please enter a valid positive integer")
    }
}

/// The point in time that a text of the form `YYYY-MM-DD HH:MM` names, in
/// seconds since the Unix epoch, read as UTC; nothing for a text of another
/// form or one that names no minute of the calendar.
pub uninterp spec fn utc_minute_timestamp(text: Seq<char>) -> Option<i64>;

/// Declares `chrono::format::ParseError`, the complaint of chrono's parser,
/// so that it can be carried to whoever reports it. Nothing is known of what
/// it holds.
#[verifier::external_type_specification]
#[verifier::external_body]
pub struct ExParseError(chrono::format::ParseError);

/// Reads a text of the form `YYYY-MM-DD HH:MM` as a point in time in UTC.
///
/// Calls `chrono::NaiveDateTime::parse_from_str` with the format
/// `%Y-%m-%d %H:%M`, and turns a parsed value into seconds since the Unix
/// epoch with `chrono::TimeZone::from_utc_datetime` for `chrono::Utc` and
/// `chrono::DateTime::timestamp`. Trusted: the outcome depends on the text
/// alone, which [`utc_minute_timestamp`] names.
#[verifier::external_body]
fn parse_utc_minute(text: &str) -> (outcome: Result<i64, chrono::format::ParseError>)
    ensures
        outcome matches Ok(seconds) ==> utc_minute_timestamp(text@) == Some(seconds),
        outcome is Err ==> utc_minute_timestamp(text@) is None,
{
    match chrono::NaiveDateTime::parse_from_str(text, "%Y-%m-%d %H:%M") {
        Ok(naive) => Ok(chrono::Utc.from_utc_datetime(&naive).timestamp()),
        Err(complaint) => Err(complaint),
    }
}

/// What an answer to the question for a point in time amounts to.
#[derive(Debug)]
pub enum TimeEntry {
    /// Nothing was entered.
    Blank,
    /// The point in time, in seconds since the Unix epoch.
    At(i64),
    /// The text names no point in time; the parser's complaint is kept.
    Invalid(chrono::format::ParseError),
}

impl TimeEntry {
    /// The entry that a parsed answer amounts to.
    pub fn from_parsed(parsed: Result<i64, chrono::format::ParseError>) -> (entry: TimeEntry)
        ensures
            entry == match parsed {
                Ok(seconds) => TimeEntry::At(seconds),
                Err(complaint) => TimeEntry::Invalid(complaint),
            },
    {
        match parsed {
            Ok(seconds) => TimeEntry::At(seconds),
            Err(complaint) => TimeEntry::Invalid(complaint),
        }
    }

    /// The point in time that was entered, if one was.
    pub fn seconds(&self) -> (seconds: Option<i64>)
        ensures
            seconds == match *self {
                TimeEntry::At(at) => Some(at),
                _ => None,
            },
    {
        match self {
            TimeEntry::At(at) => Some(*at),
            _ => None,
        }
    }
}

/// Reads the answer to the question for an optional point in time.
///
/// White space around the answer does not count. A blank answer enters
/// nothing. Any other answer is read in the form `YYYY-MM-DD HH:MM`, as UTC.
pub fn read_utc_datetime(input: &str) -> (entry: TimeEntry)
    ensures
        trimmed(input@).len() == 0 ==> entry is Blank,
        trimmed(input@).len() > 0 ==> match utc_minute_timestamp(trimmed(input@)) {
            Some(seconds) => entry == TimeEntry::At(seconds),
            None => entry is Invalid,
        },
{
    let inner = trim(input);
    if inner.unicode_len() == 0 {
        return TimeEntry::Blank;
    }
    TimeEntry::from_parsed(parse_utc_minute(inner))
}

} // verus!
