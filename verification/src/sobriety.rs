//! The time since the sobriety anchor, in whole days and hours.

use vstd::prelude::*;
use vstd::string::StringExecFns;
use crate::text::{append_signed_decimal, signed_decimal_text};

verus! {

/// The instant from which sobriety is counted, in seconds since the Unix
/// epoch, and the user's time zone by its IANA name.
#[derive(Clone, Debug)]
pub struct SobrietyAnchor {
    pub epoch: i64,
    pub timezone: String,
}

/// A duration in whole days and the whole hours beyond them.
#[derive(Clone, Copy, Debug, PartialEq, Eq, Structural)]
pub struct Elapsed {
    pub days: i64,
    pub hours: i64,
}

/// `a / b` rounded toward zero.
pub open spec fn quotient_toward_zero(a: int, b: int) -> int
    recommends
        b > 0,
{
    if a >= 0 {
        a / b
    } else {
        -((-a) / b)
    }
}

/// The whole days from `epoch` to `reference`, both in seconds. Before the
/// anchor the count is negative or zero: it is rounded toward zero.
pub open spec fn elapsed_days(epoch: int, reference: int) -> int {
    quotient_toward_zero(reference - epoch, 86400)
}

/// The whole hours from `epoch` to `reference` beyond the whole days. Before
/// the anchor they are negative or zero, as the days are.
pub open spec fn elapsed_hours(epoch: int, reference: int) -> int {
    quotient_toward_zero(reference - epoch - elapsed_days(epoch, reference) * 86400, 3600)
}

/// The time from `epoch` to `reference`, both in seconds since the Unix epoch.
pub fn elapsed(epoch: i64, reference: i64) -> (duration: Elapsed)
    ensures
        duration.days == elapsed_days(epoch as int, reference as int),
        duration.hours == elapsed_hours(epoch as int, reference as int),
{
    if reference >= epoch {
        let seconds: u64 = (reference as i128 - epoch as i128) as u64;
        let days: u64 = seconds / 86400;
        let hours: u64 = (seconds % 86400) / 3600;
        Elapsed { days: days as i64, hours: hours as i64 }
    } else {
        let seconds: u64 = (epoch as i128 - reference as i128) as u64;
        let days: u64 = seconds / 86400;
        let hours: u64 = (seconds % 86400) / 3600;
        Elapsed { days: -(days as i64), hours: -(hours as i64) }
    }
}

impl SobrietyAnchor {
    /// The time from the anchor to `reference`.
    pub fn elapsed(&self, reference: i64) -> (duration: Elapsed)
        ensures
            duration.days == elapsed_days(self.epoch as int, reference as int),
            duration.hours == elapsed_hours(self.epoch as int, reference as int),
    {
        elapsed(self.epoch, reference)
    }
}

/// `s` where the count is not 1.
pub open spec fn plural(count: int) -> Seq<char> {
    if count != 1 {
        seq!['s']
    } else {
        Seq::empty()
    }
}

/// A duration in words: `3 days and 1 hour`.
pub open spec fn duration_text(days: int, hours: int) -> Seq<char> {
    signed_decimal_text(days) + " day"@ + plural(days) + " and "@ + signed_decimal_text(hours)
        + " hour"@ + plural(hours)
}

impl Elapsed {
    /// The duration in words.
    pub fn to_text(&self) -> (text: String)
        ensures
            text@ == duration_text(self.days as int, self.hours as int),
    {
        proof {
            reveal_strlit("s");
        }
        let mut out = String::new();
        append_signed_decimal(&mut out, self.days);
        out.append(" day");
        if self.days != 1 {
            out.append("s");
        }
        out.append(" and ");
        append_signed_decimal(&mut out, self.hours);
        out.append(" hour");
        if self.hours != 1 {
            out.append("s");
        }
        assert(out@ =~= duration_text(self.days as int, self.hours as int));
        out
    }
}

/// From an instant to itself no time passes.
pub proof fn elapsed_at_anchor(epoch: int)
    ensures
        elapsed_days(epoch, epoch) == 0,
        elapsed_hours(epoch, epoch) == 0,
{
}

/// Before the anchor neither the days nor the hours are positive, and they
/// are those of the same distance after the anchor, negated.
pub proof fn elapsed_before_anchor(epoch: int, reference: int)
    requires
        reference < epoch,
    ensures
        elapsed_days(epoch, reference) <= 0,
        -24 < elapsed_hours(epoch, reference) <= 0,
        elapsed_days(epoch, reference) == -elapsed_days(reference, epoch),
        elapsed_hours(epoch, reference) == -elapsed_hours(reference, epoch),
{
}

/// From the anchor on, the days are the whole days of the duration and the
/// hours the whole hours of what is left of it, under 24.
pub proof fn elapsed_after_anchor(epoch: int, reference: int)
    requires
        reference >= epoch,
    ensures
        elapsed_days(epoch, reference) == (reference - epoch) / 86400,
        elapsed_hours(epoch, reference) == ((reference - epoch) % 86400) / 3600,
        0 <= elapsed_hours(epoch, reference) < 24,
{
}

} // verus!
