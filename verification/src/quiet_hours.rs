//! Contact hours: the window of local hours during which check-ins may be sent.

use vstd::prelude::*;

verus! {

/// A window of local hours, `start_hour` inclusive and `end_hour` exclusive.
/// With `start_hour > end_hour` the window spans midnight. A window whose two
/// hours are equal is empty: contact is never permitted in it.
#[derive(Clone, Copy, Debug, PartialEq, Eq, Structural)]
pub struct QuietWindow {
    pub start_hour: u32,
    pub end_hour: u32,
}

/// Whether contact at local hour `hour` is permitted by the window from
/// `start_hour` to `end_hour`.
pub open spec fn contact_permitted(hour: int, start_hour: int, end_hour: int) -> bool {
    if start_hour <= end_hour {
        start_hour <= hour < end_hour
    } else {
        start_hour <= hour || hour < end_hour
    }
}

impl QuietWindow {
    pub fn new(start_hour: u32, end_hour: u32) -> (window: QuietWindow)
        ensures
            window.start_hour == start_hour,
            window.end_hour == end_hour,
    {
        QuietWindow { start_hour, end_hour }
    }

    /// Whether the window spans midnight.
    pub open spec fn wraps(self) -> bool {
        self.start_hour > self.end_hour
    }

    pub open spec fn permits(self, hour: int) -> bool {
        contact_permitted(hour, self.start_hour as int, self.end_hour as int)
    }

    /// Whether contact at local hour `hour` is permitted.
    pub fn is_permitted(&self, hour: u32) -> (permitted: bool)
        ensures
            permitted == self.permits(hour as int),
    {
        if self.start_hour <= self.end_hour {
            self.start_hour <= hour && hour < self.end_hour
        } else {
            self.start_hour <= hour || hour < self.end_hour
        }
    }

    /// Whether contact at local hour `hour` is disallowed: the negation of
    /// `is_permitted`.
    pub fn is_blocked(&self, hour: u32) -> (blocked: bool)
        ensures
            blocked == !self.permits(hour as int),
    {
        !self.is_permitted(hour)
    }
}

/// An empty window blocks every hour.
pub proof fn empty_window_blocks_all(window: QuietWindow, hour: int)
    requires
        window.start_hour == window.end_hour,
    ensures
        !window.permits(hour),
{
}

/// A window that spans midnight permits exactly the hours that the window
/// with the two ends exchanged does not, among hours of the day.
pub proof fn wrapped_window_is_complement(window: QuietWindow, hour: int)
    requires
        window.wraps(),
    ensures
        window.permits(hour) == !contact_permitted(
            hour,
            window.end_hour as int,
            window.start_hour as int,
        ),
{
}

} // verus!
