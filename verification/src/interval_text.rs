//! Intervals written out: the text of given amounts of weeks, days, hours and
//! minutes, and the proof that reading such a text gives the amounts back.

use vstd::prelude::*;
use vstd::string::StringExecFns;
use vstd::utf8::{encode_utf8, is_ascii_chars};
use crate::interval::{interval_seconds, scan, scan_start, scan_step, unit_seconds, Scan};
use crate::text::{append_decimal, ascii_bytes, ascii_text_encoding, decimal_text};
use crate::text::{decimal_text_is_digits, digit_char};

verus! {

/// The amounts of an interval's units. A unit that is `None` is left out of
/// the text.
#[derive(Clone, Copy, Debug)]
pub struct IntervalParts {
    pub weeks: Option<u64>,
    pub days: Option<u64>,
    pub hours: Option<u64>,
    pub minutes: Option<u64>,
}

/// The letter of the unit of a rank.
pub open spec fn unit_char(rank: nat) -> char {
    if rank == 1 {
        'w'
    } else if rank == 2 {
        'd'
    } else if rank == 3 {
        'h'
    } else {
        'm'
    }
}

/// One token: the amount in decimal, then the unit's letter.
pub open spec fn token_text(amount: nat, rank: nat) -> Seq<char> {
    decimal_text(amount).push(unit_char(rank))
}

/// `text`, with one more token after it and a space between the two.
pub open spec fn with_token(text: Seq<char>, amount: nat, rank: nat) -> Seq<char> {
    if text.len() == 0 {
        token_text(amount, rank)
    } else {
        text.push(' ') + token_text(amount, rank)
    }
}

impl IntervalParts {
    /// The amount of the unit of a rank.
    pub open spec fn amount(self, rank: nat) -> Option<u64> {
        if rank == 1 {
            self.weeks
        } else if rank == 2 {
            self.days
        } else if rank == 3 {
            self.hours
        } else if rank == 4 {
            self.minutes
        } else {
            None
        }
    }

    /// Whether any unit is there.
    pub open spec fn any(self) -> bool {
        self.weeks is Some || self.days is Some || self.hours is Some || self.minutes is Some
    }

    /// The seconds of the units up to a rank.
    pub open spec fn total_upto(self, rank: nat) -> nat
        decreases rank,
    {
        if rank == 0 {
            0
        } else {
            self.total_upto((rank - 1) as nat) + match self.amount(rank) {
                Some(v) => v as nat * unit_seconds(rank),
                None => 0,
            }
        }
    }

    /// The text of the units up to a rank.
    pub open spec fn text_upto(self, rank: nat) -> Seq<char>
        decreases rank,
    {
        if rank == 0 {
            Seq::empty()
        } else {
            let before = self.text_upto((rank - 1) as nat);
            match self.amount(rank) {
                Some(v) => with_token(before, v as nat, rank),
                None => before,
            }
        }
    }

    /// The last unit that is there among those up to a rank, 0 if none is.
    pub open spec fn last_upto(self, rank: nat) -> nat
        decreases rank,
    {
        if rank == 0 {
            0
        } else if self.amount(rank) is Some {
            rank
        } else {
            self.last_upto((rank - 1) as nat)
        }
    }

    /// The seconds of all the units.
    pub open spec fn total(self) -> nat {
        self.total_upto(4)
    }

    /// The text of all the units, in the order weeks, days, hours, minutes,
    /// with one space between two tokens.
    pub open spec fn text(self) -> Seq<char> {
        self.text_upto(4)
    }

    /// The parts of a number of seconds: the largest units first, a unit left
    /// out where its amount is 0, seconds short of a minute dropped. Under a
    /// minute it is `0m`.
    pub open spec fn of_seconds(seconds: nat) -> IntervalParts {
        let weeks = seconds / 604800;
        let days = (seconds % 604800) / 86400;
        let hours = (seconds % 86400) / 3600;
        let minutes = (seconds % 3600) / 60;
        IntervalParts {
            weeks: if weeks > 0 {
                Some(weeks as u64)
            } else {
                None
            },
            days: if days > 0 {
                Some(days as u64)
            } else {
                None
            },
            hours: if hours > 0 {
                Some(hours as u64)
            } else {
                None
            },
            minutes: if minutes > 0 || seconds < 60 {
                Some(minutes as u64)
            } else {
                None
            },
        }
    }

    /// The parts of a number of seconds.
    pub fn from_seconds(seconds: u64) -> (parts: IntervalParts)
        ensures
            parts == IntervalParts::of_seconds(seconds as nat),
    {
        let weeks: u64 = seconds / 604800;
        let days: u64 = (seconds % 604800) / 86400;
        let hours: u64 = (seconds % 86400) / 3600;
        let minutes: u64 = (seconds % 3600) / 60;
        IntervalParts {
            weeks: if weeks > 0 {
                Some(weeks)
            } else {
                None
            },
            days: if days > 0 {
                Some(days)
            } else {
                None
            },
            hours: if hours > 0 {
                Some(hours)
            } else {
                None
            },
            minutes: if minutes > 0 || seconds < 60 {
                Some(minutes)
            } else {
                None
            },
        }
    }

    /// The text of the parts.
    pub fn to_text(&self) -> (text: String)
        ensures
            text@ == self.text(),
    {
        let mut out = String::new();
        let mut first: bool = true;
        assert(self.text_upto(0) =~= Seq::<char>::empty());
        if let Some(v) = self.weeks {
            append_token(&mut out, first, v, 1);
            first = false;
        }
        assert(out@ == self.text_upto(1) && first == (out@.len() == 0));
        if let Some(v) = self.days {
            append_token(&mut out, first, v, 2);
            first = false;
        }
        assert(out@ == self.text_upto(2) && first == (out@.len() == 0));
        if let Some(v) = self.hours {
            append_token(&mut out, first, v, 3);
            first = false;
        }
        assert(out@ == self.text_upto(3) && first == (out@.len() == 0));
        if let Some(v) = self.minutes {
            append_token(&mut out, first, v, 4);
        }
        out
    }
}

fn unit_text(rank: u8) -> (text: &'static str)
    requires
        1 <= rank <= 4,
    ensures
        text@ == seq![unit_char(rank as nat)],
{
    proof {
        reveal_strlit("w");
        reveal_strlit("d");
        reveal_strlit("h");
        reveal_strlit("m");
    }
    let text = if rank == 1 {
        "w"
    } else if rank == 2 {
        "d"
    } else if rank == 3 {
        "h"
    } else {
        "m"
    };
    assert(text@ =~= seq![unit_char(rank as nat)]);
    text
}

fn append_token(out: &mut String, first: bool, amount: u64, rank: u8)
    requires
        1 <= rank <= 4,
        first == (old(out)@.len() == 0),
    ensures
        final(out)@ == with_token(old(out)@, amount as nat, rank as nat),
        final(out)@.len() > 0,
{
    if !first {
        proof {
            reveal_strlit(" ");
        }
        out.append(" ");
    }
    append_decimal(out, amount);
    out.append(unit_text(rank));
    assert(out@ =~= with_token(old(out)@, amount as nat, rank as nat));
}

/// The text of a number of seconds: that of its parts.
pub open spec fn interval_text(seconds: nat) -> Seq<char> {
    IntervalParts::of_seconds(seconds).text()
}

/// Writes a number of seconds as an interval text, such as `1w 2d 3h`.
pub fn format_interval(seconds: u64) -> (text: String)
    ensures
        text@ == interval_text(seconds as nat),
{
    IntervalParts::from_seconds(seconds).to_text()
}

/// Reading two texts one after the other is reading their concatenation.
pub proof fn scan_concat(a: Seq<u8>, b: Seq<u8>, st: Scan)
    ensures
        scan(a + b, st) == match scan(a, st) {
            Some(mid) => scan(b, mid),
            None => None,
        },
    decreases b.len(),
{
    if b.len() == 0 {
        assert(a + b =~= a);
    } else {
        assert((a + b).drop_last() =~= a + b.drop_last());
        assert((a + b).last() == b.last());
        scan_concat(a, b.drop_last(), st);
    }
}

/// Reading a single byte is one step.
proof fn scan_one(b: u8, st: Scan)
    ensures
        scan(seq![b], st) == scan_step(st, b),
{
    assert(seq![b].drop_last() =~= Seq::<u8>::empty());
    assert(scan(seq![b].drop_last(), st) == Some(st));
}

/// Where a number may start, reading the decimal text of `n` leaves `n`
/// pending.
proof fn scan_decimal(n: nat, st: Scan)
    requires
        st.pending is None,
        st.open,
    ensures
        scan(ascii_bytes(decimal_text(n)), st) == Some(Scan { pending: Some(n), ..st }),
    decreases n,
{
    if n < 10 {
        assert(ascii_bytes(decimal_text(n)) =~= seq![digit_char(n) as u8]);
        scan_one(digit_char(n) as u8, st);
    } else {
        let head = ascii_bytes(decimal_text(n / 10));
        let last = digit_char(n % 10) as u8;
        assert(ascii_bytes(decimal_text(n)) =~= head.push(last));
        assert(head.push(last).drop_last() =~= head);
        scan_decimal(n / 10, st);
    }
}

/// Reading one token more, after a space where tokens came before, adds its
/// seconds.
proof fn scan_with_token(text: Seq<char>, amount: nat, rank: nat, st: Scan)
    requires
        1 <= rank <= 4,
        scan(ascii_bytes(text), scan_start()) == Some(st),
        st.pending is None,
        st.last_rank < rank,
        st.open == (text.len() == 0),
    ensures
        scan(ascii_bytes(with_token(text, amount, rank)), scan_start()) == Some(
            Scan {
                total: st.total + amount * unit_seconds(rank),
                pending: None,
                last_rank: rank,
                open: false,
            },
        ),
{
    let opened = Scan { open: true, ..st };
    let lead = if text.len() == 0 {
        ascii_bytes(text)
    } else {
        ascii_bytes(text).push(' ' as u8)
    };
    assert(scan(lead, scan_start()) == Some(opened)) by {
        if text.len() != 0 {
            assert(lead.drop_last() =~= ascii_bytes(text));
        }
    }
    let number = ascii_bytes(decimal_text(amount));
    let unit = unit_char(rank) as u8;
    scan_decimal(amount, opened);
    assert(number.push(unit).drop_last() =~= number);
    assert(scan(number.push(unit), opened) == Some(
        Scan {
            total: st.total + amount * unit_seconds(rank),
            pending: None,
            last_rank: rank,
            open: false,
        },
    ));
    scan_concat(lead, number.push(unit), scan_start());
    assert(ascii_bytes(with_token(text, amount, rank)) =~= lead + number.push(unit));
}

/// What reading the text of the units up to a rank leaves.
proof fn scan_parts_upto(parts: IntervalParts, rank: nat)
    requires
        rank <= 4,
    ensures
        scan(ascii_bytes(parts.text_upto(rank)), scan_start()) == Some(
            Scan {
                total: parts.total_upto(rank),
                pending: None,
                last_rank: parts.last_upto(rank),
                open: parts.last_upto(rank) == 0,
            },
        ),
        parts.last_upto(rank) <= rank,
        (parts.text_upto(rank).len() == 0) == (parts.last_upto(rank) == 0),
    decreases rank,
{
    if rank == 0 {
        assert(ascii_bytes(parts.text_upto(0)) =~= Seq::<u8>::empty());
    } else {
        let before = (rank - 1) as nat;
        scan_parts_upto(parts, before);
        match parts.amount(rank) {
            Some(v) => {
                let st = Scan {
                    total: parts.total_upto(before),
                    pending: None,
                    last_rank: parts.last_upto(before),
                    open: parts.last_upto(before) == 0,
                };
                scan_with_token(parts.text_upto(before), v as nat, rank, st);
            },
            None => {},
        }
    }
}

/// The text of parts holds ASCII characters only.
proof fn parts_text_is_ascii(parts: IntervalParts, rank: nat)
    requires
        rank <= 4,
    ensures
        is_ascii_chars(parts.text_upto(rank)),
    decreases rank,
{
    if rank > 0 {
        parts_text_is_ascii(parts, (rank - 1) as nat);
        if let Some(v) = parts.amount(rank) {
            decimal_text_is_digits(v as nat);
        }
    }
}

/// Every text of one to four tokens in the order of the units is an interval,
/// and stands for the sum of its tokens.
pub proof fn parts_text_is_interval(parts: IntervalParts)
    requires
        parts.any(),
    ensures
        interval_seconds(encode_utf8(parts.text())) == Some(parts.total()),
{
    scan_parts_upto(parts, 4);
    reveal_with_fuel(IntervalParts::last_upto, 5);
    parts_text_is_ascii(parts, 4);
    ascii_text_encoding(parts.text());
}

/// Weeks, days, hours and minutes of a number of seconds add up to its
/// whole minutes.
proof fn seconds_split(s: int)
    requires
        0 <= s,
    ensures
        604800 * (s / 604800) + 86400 * ((s % 604800) / 86400) + 3600 * ((s % 86400) / 3600) + 60
            * ((s % 3600) / 60) == s - s % 60,
{
    let r1 = s % 604800;
    let r2 = s % 86400;
    let r3 = s % 3600;
    assert(r1 % 86400 == r2) by {
        vstd::arithmetic::div_mod::lemma_mod_mod(s, 86400, 7);
    }
    assert(r2 % 3600 == r3) by {
        vstd::arithmetic::div_mod::lemma_mod_mod(s, 3600, 24);
    }
    assert(r3 % 60 == s % 60) by {
        vstd::arithmetic::div_mod::lemma_mod_mod(s, 60, 60);
    }
    assert(s == 604800 * (s / 604800) + r1);
    assert(r1 == 86400 * (r1 / 86400) + r2);
    assert(r2 == 3600 * (r2 / 3600) + r3);
    assert(r3 == 60 * (r3 / 60) + s % 60);
}

/// The seconds of parts, unit by unit.
proof fn total_by_units(parts: IntervalParts)
    ensures
        parts.total() == seconds_of(parts.weeks, 604800) + seconds_of(parts.days, 86400)
            + seconds_of(parts.hours, 3600) + seconds_of(parts.minutes, 60),
{
    reveal_with_fuel(IntervalParts::total_upto, 5);
}

/// The seconds of an amount of a unit, 0 where the unit is left out.
spec fn seconds_of(amount: Option<u64>, unit: nat) -> nat {
    match amount {
        Some(v) => v as nat * unit,
        None => 0,
    }
}

/// The parts of a number of seconds add up to its whole minutes.
pub proof fn parts_of_seconds_total(seconds: nat)
    requires
        seconds <= u64::MAX,
    ensures
        IntervalParts::of_seconds(seconds).any(),
        IntervalParts::of_seconds(seconds).total() == seconds - seconds % 60,
{
    let parts = IntervalParts::of_seconds(seconds);
    total_by_units(parts);
    seconds_split(seconds as int);
    assert(seconds_of(parts.weeks, 604800) == 604800 * (seconds / 604800));
    assert(seconds_of(parts.days, 86400) == 86400 * ((seconds % 604800) / 86400));
    assert(seconds_of(parts.hours, 3600) == 3600 * ((seconds % 86400) / 3600));
    assert(seconds_of(parts.minutes, 60) == 60 * ((seconds % 3600) / 60));
}

/// The text of a number of seconds is an interval of its whole minutes: what
/// `format_interval` writes, `parse_interval` reads back.
pub proof fn interval_text_is_interval(seconds: nat)
    requires
        seconds <= u64::MAX,
    ensures
        interval_seconds(encode_utf8(interval_text(seconds))) == Some(
            (seconds - seconds % 60) as nat,
        ),
{
    parts_of_seconds_total(seconds);
    parts_text_is_interval(IntervalParts::of_seconds(seconds));
}

/// Reading keeps the total at whole minutes.
proof fn scan_keeps_whole_minutes(text: Seq<u8>, st: Scan)
    requires
        st.total % 60 == 0,
    ensures
        scan(text, st) matches Some(after) ==> after.total % 60 == 0,
    decreases text.len(),
{
    if text.len() > 0 {
        scan_keeps_whole_minutes(text.drop_last(), st);
        if let Some(before) = scan(text.drop_last(), st) {
            if let Some(v) = before.pending {
                assert(v * 604800 == 60 * (v * 10080));
                assert(v * 86400 == 60 * (v * 1440));
                assert(v * 3600 == 60 * (v * 60));
            }
        }
    }
}

/// An interval is a whole number of minutes.
pub proof fn interval_is_whole_minutes(text: Seq<u8>)
    ensures
        interval_seconds(text) matches Some(total) ==> total % 60 == 0,
{
    scan_keeps_whole_minutes(text, scan_start());
}

/// Reading an interval, writing it out and reading that again gives the same
/// number of seconds.
pub proof fn interval_round_trip(text: Seq<u8>)
    requires
        interval_seconds(text) matches Some(total) && total <= u64::MAX,
    ensures
        interval_seconds(encode_utf8(interval_text(interval_seconds(text).unwrap())))
            == interval_seconds(text),
{
    interval_is_whole_minutes(text);
    interval_text_is_interval(interval_seconds(text).unwrap());
}

} // verus!
