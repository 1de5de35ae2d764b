//! Points in time, as a license records them.

use vstd::prelude::*;

verus! {

/// A point in time on the UTC time line.
#[derive(Clone, Copy, Debug, PartialEq, Eq, Structural)]
pub struct Timestamp {
    /// Whole seconds since 1970-01-01T00:00:00Z, leap seconds not counted.
    pub secs: i64,
    /// Nanoseconds since the last whole second. Inside a leap second the
    /// count goes on past 999,999,999.
    pub nanos: u32,
}

/// The number of seconds in a day.
pub const SECONDS_PER_DAY: i64 = 86_400;

/// The number of nanoseconds in a second.
pub const NANOS_PER_SECOND: u32 = 1_000_000_000;

/// `chrono::ParseError`, the error of a date and time that cannot be read.
#[verifier::external_type_specification]
#[verifier::external_body]
pub struct ExParseError(chrono::ParseError);

/// The instant that `chrono` reads from a date and time in text, as seconds
/// and nanoseconds; `None` where it reports an error.
pub uninterp spec fn instant_of_text(text: Seq<char>) -> Option<(i64, u32)>;

/// The RFC 3339 text that `chrono` writes for an instant given as seconds and
/// nanoseconds; `None` where it cannot represent the instant.
pub uninterp spec fn rfc3339_text(secs: i64, nanos: u32) -> Option<Seq<char>>;

/// Calls `str::parse::<chrono::DateTime<chrono::Utc>>`, which accepts RFC 3339
/// and a relaxed form of it, and hands out the instant found as
/// `DateTime::timestamp` and `DateTime::timestamp_subsec_nanos` give it. The
/// contract only names the outcome.
#[verifier::external_body]
fn parse_date_time(text: &str) -> (parsed: Result<(i64, u32), chrono::ParseError>)
    ensures
        parsed is Ok ==> instant_of_text(text@) == Some(parsed->Ok_0),
        parsed is Err ==> instant_of_text(text@).is_none(),
{
    text.parse::<chrono::DateTime<chrono::Utc>>().map(
        |at| (at.timestamp(), at.timestamp_subsec_nanos()),
    )
}

/// Calls `chrono::DateTime::from_timestamp` and, where that gives a date,
/// `DateTime::to_rfc3339` on it. The contract only names the outcome.
#[verifier::external_body]
fn format_date_time(secs: i64, nanos: u32) -> (text: Option<String>)
    ensures
        text is Some ==> rfc3339_text(secs, nanos) == Some(text->Some_0@),
        text is None ==> rfc3339_text(secs, nanos).is_none(),
{
    chrono::DateTime::from_timestamp(secs, nanos).map(|at| at.to_rfc3339())
}

/// Calls `chrono::Utc::now` and hands out the reading as
/// `DateTime::timestamp` and `DateTime::timestamp_subsec_nanos` give it.
/// `Utc::now` makes its date from the time that has passed since 1970, whose
/// part below a second is less than a second: the reading is never inside a
/// leap second. Nothing else is promised of a clock. `Utc::now` gives up on
/// a system clock set before 1970.
#[verifier::external_body]
fn read_clock() -> (reading: (i64, u32))
    ensures
        reading.1 < NANOS_PER_SECOND,
{
    let now = chrono::Utc::now();
    (now.timestamp(), now.timestamp_subsec_nanos())
}

impl Timestamp {
    /// Whether this instant lies strictly after `other`.
    pub open spec fn spec_is_after(self, other: Timestamp) -> bool {
        self.secs > other.secs || (self.secs == other.secs && self.nanos > other.nanos)
    }

    /// Whether this instant lies outside a leap second: its nanoseconds are
    /// a fraction of a second.
    pub open spec fn outside_leap_second(self) -> bool {
        self.nanos < NANOS_PER_SECOND
    }

    /// The instant a number of whole days later, if its seconds fit the field.
    pub open spec fn spec_plus_days(self, days: i64) -> Option<Timestamp> {
        if i64::MIN <= self.secs + days * SECONDS_PER_DAY <= i64::MAX {
            Some(Timestamp { secs: (self.secs + days * SECONDS_PER_DAY) as i64, nanos: self.nanos })
        } else {
            None
        }
    }

    /// The instant that a date and time in text denotes, if `chrono` reads one.
    pub open spec fn spec_parse(text: Seq<char>) -> Option<Timestamp> {
        match instant_of_text(text) {
            Some(at) => Some(Timestamp { secs: at.0, nanos: at.1 }),
            None => None,
        }
    }

    /// The RFC 3339 text of this instant, if `chrono` can write it.
    pub open spec fn spec_to_rfc3339(self) -> Option<Seq<char>> {
        rfc3339_text(self.secs, self.nanos)
    }

    /// Whether this instant lies strictly after `other`.
    pub fn is_after(self, other: Timestamp) -> (after: bool)
        ensures
            after == self.spec_is_after(other),
    {
        self.secs > other.secs || (self.secs == other.secs && self.nanos > other.nanos)
    }

    /// The instant `days` whole days later; `None` where its seconds do not fit.
    pub fn plus_days(self, days: i64) -> (later: Option<Timestamp>)
        ensures
            later == self.spec_plus_days(days),
    {
        let total: i128 = self.secs as i128 + days as i128 * 86_400;
        if total < i64::MIN as i128 || total > i64::MAX as i128 {
            None
        } else {
            Some(Timestamp { secs: total as i64, nanos: self.nanos })
        }
    }

    /// Reads a date and time written in RFC 3339, or in the relaxed form of it
    /// that `chrono` accepts.
    pub fn parse(text: &str) -> (parsed: Option<Timestamp>)
        ensures
            parsed == Timestamp::spec_parse(text@),
    {
        match parse_date_time(text) {
            Ok(at) => Some(Timestamp { secs: at.0, nanos: at.1 }),
            Err(_) => None,
        }
    }

    /// Writes this instant in RFC 3339; `None` where `chrono` cannot represent it.
    pub fn to_rfc3339(self) -> (text: Option<String>)
        ensures
            match text {
                Some(written) => self.spec_to_rfc3339() == Some(written@),
                None => self.spec_to_rfc3339().is_none(),
            },
    {
        format_date_time(self.secs, self.nanos)
    }

    /// The current time by the system clock. Which time that is, nothing
    /// can say beforehand; it is never one inside a leap second.
    pub fn now() -> (now: Timestamp)
        ensures
            now.outside_leap_second(),
    {
        let reading = read_clock();
        Timestamp { secs: reading.0, nanos: reading.1 }
    }
}

} // verus!
