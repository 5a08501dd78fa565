//! Instants as the user's wall clock shows them. The time zone rules and the
//! reading of written dates come from `chrono` and `chrono-tz`.

use vstd::prelude::*;
use vstd::string::StringExecFns;
use crate::text::digit_char;

verus! {

/// The seconds since local midnight that a clock in the time zone `zone`, an
/// IANA name, shows at `timestamp` seconds since the Unix epoch; `None` where
/// the zone is unknown or the instant is beyond the calendar.
pub uninterp spec fn zone_seconds_of_day(timestamp: int, zone: Seq<char>) -> Option<u32>;

/// Whether `name` is the IANA name of a time zone.
pub uninterp spec fn zone_is_known(name: Seq<char>) -> bool;

/// The seconds since the Unix epoch of the instant that `text` writes as
/// RFC 3339 says, a fraction of a second dropped; `None` where `text` is no
/// such date and time.
pub uninterp spec fn rfc3339_timestamp(text: Seq<char>) -> Option<i64>;

/// Calls `str::parse::<chrono_tz::Tz>`, `chrono::DateTime::from_timestamp`,
/// `DateTime::with_timezone` and `Timelike::num_seconds_from_midnight`: the
/// time of day at an instant in a zone. Not proved: that the result depends
/// on the two arguments alone, and that it is under 86400, which the last of
/// these documents (every time from 00:00:00 to 23:59:59 maps into 0 to
/// 86399).
#[verifier::external_body]
fn seconds_of_day_in_zone(timestamp: i64, zone: &str) -> (seconds: Option<u32>)
    ensures
        seconds == zone_seconds_of_day(timestamp as int, zone@),
        seconds matches Some(s) ==> s < 86400,
{
    let tz: chrono_tz::Tz = zone.parse().ok()?;
    let utc = chrono::DateTime::from_timestamp(timestamp, 0)?;
    Some(chrono::Timelike::num_seconds_from_midnight(&utc.with_timezone(&tz)))
}

/// Calls `str::parse::<chrono_tz::Tz>`, which looks the name up in the table
/// of time zones. Not proved: that the result depends on the name alone.
#[verifier::external_body]
pub(crate) fn timezone_lookup(name: &str) -> (known: bool)
    ensures
        known == zone_is_known(name@),
{
    name.parse::<chrono_tz::Tz>().is_ok()
}

/// Calls `chrono::DateTime::parse_from_rfc3339` and, on what it read,
/// `DateTime::timestamp`. Not proved: that the result depends on the text
/// alone.
#[verifier::external_body]
pub(crate) fn rfc3339_lookup(text: &str) -> (timestamp: Option<i64>)
    ensures
        timestamp == rfc3339_timestamp(text@),
{
    match chrono::DateTime::parse_from_rfc3339(text) {
        Ok(instant) => Some(instant.timestamp()),
        Err(_) => None,
    }
}

/// What a local instant holds.
pub struct ClockReading {
    /// Seconds since the Unix epoch.
    pub timestamp: int,
    /// Seconds since local midnight.
    pub seconds_of_day: int,
}

impl ClockReading {
    pub open spec fn hour(self) -> int {
        self.seconds_of_day / 3600
    }

    pub open spec fn minute(self) -> int {
        (self.seconds_of_day / 60) % 60
    }

    pub open spec fn second(self) -> int {
        self.seconds_of_day % 60
    }

    /// The time of day as `HH:MM:SS`.
    pub open spec fn clock_text(self) -> Seq<char> {
        two_digits(self.hour()) + seq![':'] + two_digits(self.minute()) + seq![':'] + two_digits(
            self.second(),
        )
    }
}

/// A number under 100 in two digits.
pub open spec fn two_digits(n: int) -> Seq<char> {
    seq![digit_char((n / 10) as nat), digit_char((n % 10) as nat)]
}

/// An instant together with the time of day that the user's clock shows at
/// it, which is under 24 hours.
#[derive(Clone, Copy, Debug)]
pub struct LocalInstant {
    timestamp: i64,
    seconds_of_day: u32,
}

impl View for LocalInstant {
    type V = ClockReading;

    closed spec fn view(&self) -> ClockReading {
        ClockReading {
            timestamp: self.timestamp as int,
            seconds_of_day: self.seconds_of_day as int,
        }
    }
}

impl LocalInstant {
    #[verifier::type_invariant]
    closed spec fn within_day(self) -> bool {
        self.seconds_of_day < 86400
    }

    /// The instant with the given time of day, where that is under 24 hours.
    pub fn new(timestamp: i64, seconds_of_day: u32) -> (instant: Option<LocalInstant>)
        ensures
            match instant {
                Some(i) => seconds_of_day < 86400 && i@ == (ClockReading {
                    timestamp: timestamp as int,
                    seconds_of_day: seconds_of_day as int,
                }),
                None => seconds_of_day >= 86400,
            },
    {
        if seconds_of_day < 86400 {
            Some(LocalInstant { timestamp, seconds_of_day })
        } else {
            None
        }
    }

    /// The instant with the time of day that the clock of a time zone shows;
    /// `None` where the zone is unknown or the instant beyond the calendar.
    pub fn in_zone(timestamp: i64, zone: &str) -> (instant: Option<LocalInstant>)
        ensures
            match zone_seconds_of_day(timestamp as int, zone@) {
                Some(s) => instant matches Some(i) && i@ == (ClockReading {
                    timestamp: timestamp as int,
                    seconds_of_day: s as int,
                }),
                None => instant is None,
            },
    {
        match seconds_of_day_in_zone(timestamp, zone) {
            Some(s) => LocalInstant::new(timestamp, s),
            None => None,
        }
    }

    pub fn timestamp(&self) -> (timestamp: i64)
        ensures
            timestamp == self@.timestamp,
    {
        self.timestamp
    }

    pub fn seconds_of_day(&self) -> (seconds: u32)
        ensures
            seconds == self@.seconds_of_day,
            seconds < 86400,
    {
        proof {
            use_type_invariant(self);
        }
        self.seconds_of_day
    }

    /// The hour of the day, from 0 to 23.
    pub fn hour(&self) -> (hour: u32)
        ensures
            hour == self@.hour(),
            hour < 24,
    {
        proof {
            use_type_invariant(self);
        }
        self.seconds_of_day / 3600
    }

    /// The minute of the hour, from 0 to 59.
    pub fn minute(&self) -> (minute: u32)
        ensures
            minute == self@.minute(),
            minute < 60,
    {
        (self.seconds_of_day / 60) % 60
    }

    /// The second of the minute, from 0 to 59.
    pub fn second(&self) -> (second: u32)
        ensures
            second == self@.second(),
            second < 60,
    {
        self.seconds_of_day % 60
    }

    /// The time of day as `HH:MM:SS`.
    pub fn clock_text(&self) -> (text: String)
        ensures
            text@ == self@.clock_text(),
            text@.len() == 8,
    {
        proof {
            reveal_strlit(":");
        }
        let mut out = String::new();
        append_two_digits(&mut out, self.hour());
        out.append(":");
        append_two_digits(&mut out, self.minute());
        out.append(":");
        append_two_digits(&mut out, self.second());
        assert(out@ =~= self@.clock_text());
        out
    }
}

fn append_two_digits(out: &mut String, n: u32)
    requires
        n < 100,
    ensures
        final(out)@ == old(out)@ + two_digits(n as int),
{
    crate::text::append_digit(out, (n / 10) as u64);
    crate::text::append_digit(out, (n % 10) as u64);
    assert(out@ =~= old(out)@ + two_digits(n as int));
}

} // verus!
