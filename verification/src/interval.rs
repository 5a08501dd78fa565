//! Check-in intervals: the recovery stages that guide them, and the text form
//! `"Xw Xd Xh Xm"` in which an interval is recommended.

use vstd::prelude::*;
use vstd::string::StringSliceAdditionalSpecFns;

verus! {

pub const SECONDS_IN_MINUTE: u64 = 60;

pub const SECONDS_IN_HOUR: u64 = 3600;

pub const SECONDS_IN_DAY: u64 = 86400;

pub const SECONDS_IN_WEEK: u64 = 604800;

/// The interval between check-ins until another one is recommended: 150 minutes.
pub const CHECK_IN_TIMEOUT: u64 = 9000;

/// The byte `w`, for weeks.
pub const LETTER_W: u8 = 119;

/// The byte `d`, for days.
pub const LETTER_D: u8 = 100;

/// The byte `h`, for hours.
pub const LETTER_H: u8 = 104;

/// The byte `m`, for minutes.
pub const LETTER_M: u8 = 109;

/// The byte `0`.
pub const DIGIT_ZERO: u8 = 48;

/// The byte `9`.
pub const DIGIT_NINE: u8 = 57;

/// The byte of a space.
pub const SPACE: u8 = 32;

/// Why a text is not an interval.
#[derive(Clone, Copy, Debug, PartialEq, Eq, Structural)]
pub enum IntervalError {
    /// The text does not follow the grammar: it holds an unknown character, a
    /// number without a unit, a unit without a number, a unit out of order or
    /// repeated, two tokens that no space separates, or no token at all.
    InvalidIntervalFormat,
    /// The text follows the grammar, but its total exceeds `u64::MAX` seconds.
    IntervalTooLong,
}

/// The rank of a unit letter: 1 for weeks, 2 for days, 3 for hours, 4 for
/// minutes, and 0 for any other byte. Tokens come in rising rank.
pub open spec fn unit_rank(b: u8) -> nat {
    if b == LETTER_W {
        1
    } else if b == LETTER_D {
        2
    } else if b == LETTER_H {
        3
    } else if b == LETTER_M {
        4
    } else {
        0
    }
}

/// The seconds in one unit of the given rank.
pub open spec fn unit_seconds(rank: nat) -> nat {
    if rank == 1 {
        604800
    } else if rank == 2 {
        86400
    } else if rank == 3 {
        3600
    } else if rank == 4 {
        60
    } else {
        0
    }
}

pub open spec fn is_digit(b: u8) -> bool {
    DIGIT_ZERO <= b <= DIGIT_NINE
}

pub open spec fn is_space(b: u8) -> bool {
    b == SPACE
}

/// What a reader of an interval text knows after some of its bytes.
pub struct Scan {
    /// The seconds of the tokens read so far.
    pub total: nat,
    /// The number whose digits are being read, if any.
    pub pending: Option<nat>,
    /// The rank of the last unit read, 0 before the first.
    pub last_rank: nat,
    /// Whether a number may start here: at the start and after a space.
    pub open: bool,
}

pub open spec fn scan_start() -> Scan {
    Scan { total: 0, pending: None, last_rank: 0, open: true }
}

/// The reader's knowledge after one more byte, or `None` where the byte
/// cannot stand there.
pub open spec fn scan_step(st: Scan, b: u8) -> Option<Scan> {
    if is_digit(b) {
        let d = (b - DIGIT_ZERO) as nat;
        match st.pending {
            Some(v) => Some(Scan { pending: Some(10 * v + d), ..st }),
            None => if st.open {
                Some(Scan { pending: Some(d), ..st })
            } else {
                None
            },
        }
    } else if unit_rank(b) > 0 {
        match st.pending {
            Some(v) => if unit_rank(b) > st.last_rank {
                Some(
                    Scan {
                        total: st.total + v * unit_seconds(unit_rank(b)),
                        pending: None,
                        last_rank: unit_rank(b),
                        open: false,
                    },
                )
            } else {
                None
            },
            None => None,
        }
    } else if is_space(b) {
        match st.pending {
            Some(_) => None,
            None => Some(Scan { open: true, ..st }),
        }
    } else {
        None
    }
}

/// The reader's knowledge after all of `text`, starting from `st`.
pub open spec fn scan(text: Seq<u8>, st: Scan) -> Option<Scan>
    decreases text.len(),
{
    if text.len() == 0 {
        Some(st)
    } else {
        match scan(text.drop_last(), st) {
            Some(before) => scan_step(before, text.last()),
            None => None,
        }
    }
}

/// The seconds that an interval text stands for, or `None` where the text is
/// no interval. An interval is one to four tokens, each a decimal number
/// followed by one of the letters `w`, `d`, `h`, `m`, in that order of units
/// and each unit at most once, with spaces between tokens and, if any, around
/// them.
pub open spec fn interval_seconds(text: Seq<u8>) -> Option<nat> {
    match scan(text, scan_start()) {
        Some(st) => if st.pending is None && st.last_rank > 0 {
            Some(st.total)
        } else {
            None
        },
        None => None,
    }
}

/// The stage of recovery, by the days since the sobriety anchor.
#[derive(Clone, Copy, Debug, PartialEq, Eq, Structural)]
pub enum Stage {
    /// Under 90 days.
    Early,
    /// From 90 days on, under 365.
    MidTerm,
    /// From 365 days on.
    LongTerm,
}

/// The stage of a number of days.
pub open spec fn stage_of(elapsed_days: int) -> Stage {
    if elapsed_days < 90 {
        Stage::Early
    } else if elapsed_days < 365 {
        Stage::MidTerm
    } else {
        Stage::LongTerm
    }
}

impl Stage {
    /// The tightest interval that the stage suggests, in seconds: 2 hours
    /// early on, 12 hours in mid-term, 24 hours in the long term.
    pub open spec fn tightest_interval(self) -> nat {
        match self {
            Stage::Early => 7200,
            Stage::MidTerm => 43200,
            Stage::LongTerm => 86400,
        }
    }

    /// The stage of a number of days.
    pub fn for_days(elapsed_days: i64) -> (stage: Stage)
        ensures
            stage == stage_of(elapsed_days as int),
    {
        if elapsed_days < 90 {
            Stage::Early
        } else if elapsed_days < 365 {
            Stage::MidTerm
        } else {
            Stage::LongTerm
        }
    }
}

/// The interval to wait before the next check-in where nothing else is
/// recommended: the tightest that the stage of `elapsed_days` suggests.
pub fn recommend(elapsed_days: i64) -> (seconds: u64)
    ensures
        seconds == stage_of(elapsed_days as int).tightest_interval(),
{
    match Stage::for_days(elapsed_days) {
        Stage::Early => 2 * SECONDS_IN_HOUR,
        Stage::MidTerm => 12 * SECONDS_IN_HOUR,
        Stage::LongTerm => SECONDS_IN_DAY,
    }
}

/// A longer sobriety never tightens the recommended interval.
pub proof fn recommend_is_monotonic(shorter: int, longer: int)
    requires
        shorter <= longer,
    ensures
        stage_of(shorter).tightest_interval() <= stage_of(longer).tightest_interval(),
{
}

/// The largest total, in seconds, that an interval can have.
pub const MAX_INTERVAL_SECONDS: u64 = 0xffff_ffff_ffff_ffff;

/// `total + amount * unit`, where that is an interval's total.
fn add_scaled(total: u64, amount: u64, unit: u64) -> (sum: Option<u64>)
    requires
        total <= MAX_INTERVAL_SECONDS,
        0 < unit,
    ensures
        match sum {
            Some(t) => t == total + amount * unit && t <= MAX_INTERVAL_SECONDS,
            None => total + amount * unit > MAX_INTERVAL_SECONDS,
        },
{
    let room: u64 = MAX_INTERVAL_SECONDS - total;
    if amount > room / unit {
        assert(amount * unit > room) by (nonlinear_arith)
            requires
                amount > room / unit,
                0 < unit,
        ;
        None
    } else {
        assert(amount * unit <= room) by (nonlinear_arith)
            requires
                amount <= room / unit,
                0 < unit,
        ;
        Some(total + amount * unit)
    }
}

/// The rank of a unit letter, as `unit_rank` defines it.
fn rank_of(b: u8) -> (rank: u8)
    ensures
        rank == unit_rank(b),
{
    if b == LETTER_W {
        1
    } else if b == LETTER_D {
        2
    } else if b == LETTER_H {
        3
    } else if b == LETTER_M {
        4
    } else {
        0
    }
}

/// The seconds in one unit of a rank, as `unit_seconds` defines them.
fn seconds_of_rank(rank: u8) -> (seconds: u64)
    ensures
        seconds == unit_seconds(rank as nat),
{
    if rank == 1 {
        604800
    } else if rank == 2 {
        86400
    } else if rank == 3 {
        3600
    } else if rank == 4 {
        60
    } else {
        0
    }
}

/// Reading one byte more extends the reading of the bytes before it.
proof fn scan_next(text: Seq<u8>, i: int)
    requires
        0 <= i < text.len(),
    ensures
        scan(text.take(i + 1), scan_start()) == match scan(text.take(i), scan_start()) {
            Some(before) => scan_step(before, text[i]),
            None => None,
        },
{
    assert(text.take(i + 1).drop_last() =~= text.take(i));
}

/// Parses an interval text into its seconds.
pub fn parse_interval(text: &str) -> (parsed: Result<u64, IntervalError>)
    ensures
        match interval_seconds(text.spec_bytes()) {
            None => parsed == Err::<u64, IntervalError>(IntervalError::InvalidIntervalFormat),
            Some(total) => if total <= u64::MAX {
                parsed == Ok::<u64, IntervalError>(total as u64)
            } else {
                parsed == Err::<u64, IntervalError>(IntervalError::IntervalTooLong)
            },
        },
{
    let bytes = text.as_bytes();
    let ghost all = text.spec_bytes();
    let mut total: u64 = 0;
    let mut pending: Option<u64> = None;
    let mut last_rank: u8 = 0;
    let mut open: bool = true;
    let mut too_long: bool = false;
    let mut i: usize = 0;
    assert(all.take(0) =~= Seq::<u8>::empty());
    while i < bytes.len()
        invariant
            all == text.spec_bytes(),
            bytes@ == all,
            i <= all.len(),
            last_rank <= 4,
            scan(all.take(i as int), scan_start()) matches Some(st) && {
                &&& st.last_rank == last_rank
                &&& st.open == open
                &&& (st.pending is Some) == (pending is Some)
                &&& !too_long ==> {
                    &&& st.total == total
                    &&& total <= MAX_INTERVAL_SECONDS
                    &&& st.pending matches Some(v) ==> pending == Some(v as u64) && v
                        <= MAX_INTERVAL_SECONDS
                }
                &&& too_long ==> st.total + (match st.pending {
                    Some(v) => v,
                    None => 0,
                }) > MAX_INTERVAL_SECONDS
            },
        decreases bytes.len() - i,
    {
        let b: u8 = bytes[i];
        let ghost before = scan(all.take(i as int), scan_start()).unwrap();
        proof {
            scan_next(all, i as int);
        }
        let rank: u8 = rank_of(b);
        if DIGIT_ZERO <= b && b <= DIGIT_NINE {
            let d: u64 = (b - DIGIT_ZERO) as u64;
            match pending {
                Some(v) => {
                    if too_long || v > (MAX_INTERVAL_SECONDS - d) / 10 {
                        too_long = true;
                    } else {
                        pending = Some(10 * v + d);
                    }
                },
                None => {
                    if !open {
                        proof {
                            assert(scan(all.take(i + 1), scan_start()) is None);
                            scan_stays_failed(all, i + 1);
                        }
                        return Err(IntervalError::InvalidIntervalFormat);
                    }
                    pending = Some(d);
                },
            }
        } else if rank > 0 {
            match pending {
                Some(v) => {
                    if rank <= last_rank {
                        proof {
                            scan_stays_failed(all, i + 1);
                        }
                        return Err(IntervalError::InvalidIntervalFormat);
                    }
                    let unit: u64 = seconds_of_rank(rank);
                    assert(before.pending.unwrap() * unit >= before.pending.unwrap())
                        by (nonlinear_arith)
                        requires
                            unit >= 1,
                    ;
                    if !too_long {
                        match add_scaled(total, v, unit) {
                            Some(t) => {
                                total = t;
                            },
                            None => {
                                too_long = true;
                            },
                        }
                    }
                    pending = None;
                    last_rank = rank;
                    open = false;
                },
                None => {
                    proof {
                        scan_stays_failed(all, i + 1);
                    }
                    return Err(IntervalError::InvalidIntervalFormat);
                },
            }
        } else if b == SPACE {
            if pending.is_some() {
                proof {
                    scan_stays_failed(all, i + 1);
                }
                return Err(IntervalError::InvalidIntervalFormat);
            }
            open = true;
        } else {
            proof {
                scan_stays_failed(all, i + 1);
            }
            return Err(IntervalError::InvalidIntervalFormat);
        }
        i += 1;
    }
    assert(all.take(i as int) =~= all);
    if pending.is_some() || last_rank == 0 {
        Err(IntervalError::InvalidIntervalFormat)
    } else if too_long {
        Err(IntervalError::IntervalTooLong)
    } else {
        Ok(total)
    }
}

/// Once a byte cannot stand where it is, no further byte mends the text.
proof fn scan_stays_failed(text: Seq<u8>, i: int)
    requires
        0 <= i <= text.len(),
        scan(text.take(i), scan_start()) is None,
    ensures
        scan(text, scan_start()) is None,
    decreases text.len() - i,
{
    if i < text.len() {
        scan_next(text, i);
        scan_stays_failed(text, i + 1);
    } else {
        assert(text.take(i) =~= text);
    }
}

/// The last rank that a reader holds is the highest among the unit letters
/// it has read: 0 where it has read none.
proof fn scan_holds_highest_rank(text: Seq<u8>, k: int)
    requires
        0 <= k <= text.len(),
    ensures
        scan(text.take(k), scan_start()) matches Some(st) ==> {
            &&& forall|i: int| 0 <= i < k ==> unit_rank(#[trigger] text[i]) <= st.last_rank
            &&& (forall|i: int| 0 <= i < k ==> unit_rank(#[trigger] text[i]) == 0)
                ==> st.last_rank == 0
        },
    decreases k,
{
    if k == 0 {
        assert(text.take(0) =~= Seq::<u8>::empty());
    } else {
        scan_holds_highest_rank(text, k - 1);
        scan_next(text, k - 1);
    }
}

/// A text with a byte that is no digit, no unit letter and no space is no
/// interval.
pub proof fn unknown_byte_is_rejected(text: Seq<u8>, i: int)
    requires
        0 <= i < text.len(),
        !is_digit(text[i]),
        unit_rank(text[i]) == 0,
        !is_space(text[i]),
    ensures
        interval_seconds(text) is None,
{
    scan_next(text, i);
    scan_stays_failed(text, i + 1);
}

/// A text without a unit letter, and so the empty text, is no interval.
pub proof fn text_without_unit_is_rejected(text: Seq<u8>)
    requires
        forall|i: int| 0 <= i < text.len() ==> unit_rank(#[trigger] text[i]) == 0,
    ensures
        interval_seconds(text) is None,
{
    scan_holds_highest_rank(text, text.len() as int);
    assert(text.take(text.len() as int) =~= text);
}

/// A text in which a unit comes after a later one, or twice, is no interval.
pub proof fn misordered_units_are_rejected(text: Seq<u8>, i: int, j: int)
    requires
        0 <= i < j < text.len(),
        unit_rank(text[i]) > 0,
        0 < unit_rank(text[j]) <= unit_rank(text[i]),
    ensures
        interval_seconds(text) is None,
{
    scan_holds_highest_rank(text, j);
    scan_next(text, j);
    scan_stays_failed(text, j + 1);
}

/// A text that ends in a digit ends in a number without a unit, and is no
/// interval.
pub proof fn trailing_number_is_rejected(text: Seq<u8>)
    requires
        text.len() > 0,
        is_digit(text.last()),
    ensures
        interval_seconds(text) is None,
{
}

} // verus!
