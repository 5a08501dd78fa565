//! The scheduler: at each tick it decides whether contact is allowed, lets
//! the conversation count the tick, and tells when a check-in is due.

use vstd::prelude::*;
use crate::clock::{ClockReading, LocalInstant};
use crate::conversation::{recommendation_bytes, recommended_interval, rejection};
use crate::conversation::{ChatTurn, ConversationState, ConversationView, Phase};
use crate::interval::IntervalError;
use crate::quiet_hours::QuietWindow;

verus! {

/// What to do after a tick.
#[derive(Clone, Copy, Debug, PartialEq, Eq, Structural)]
pub enum TickAction {
    /// The hour is outside the contact window: nothing was done, and the next
    /// tick looks again.
    Deferred,
    /// Nothing is due.
    Wait,
    /// A check-in is due: send the prompt, and report it with
    /// `check_in_sent` once it is out. Where sending fails, report nothing:
    /// the next tick asks again.
    SendCheckIn,
}

/// What a tick did and asks for.
#[derive(Clone, Copy, Debug, PartialEq, Eq, Structural)]
pub struct TickOutcome {
    pub action: TickAction,
    /// Whether the tick ended the conversation for silence.
    pub conversation_ended: bool,
}

/// Whether a check-in is due at `now`: no conversation is open, and the
/// interval has passed since the last check-in.
pub open spec fn check_in_due(state: ConversationView, last_check_in: int, now: int) -> bool {
    state.phase == Phase::Idle && now - last_check_in >= state.current_interval
}

/// The conversation after a tick at the local hour `hour`: outside the
/// contact window as before, inside it with the tick counted.
pub open spec fn state_after_tick(
    state: ConversationView,
    window: QuietWindow,
    hour: int,
    interval: Option<nat>,
) -> ConversationView {
    if window.permits(hour) {
        state.ticked(interval)
    } else {
        state
    }
}

/// What a tick at `now` does and asks for, from the conversation before it.
pub open spec fn tick_outcome(
    state: ConversationView,
    window: QuietWindow,
    last_check_in: int,
    now: ClockReading,
    interval: Option<nat>,
) -> TickOutcome {
    if !window.permits(now.hour()) {
        TickOutcome { action: TickAction::Deferred, conversation_ended: false }
    } else {
        TickOutcome {
            action: if check_in_due(state.ticked(interval), last_check_in, now.timestamp) {
                TickAction::SendCheckIn
            } else {
                TickAction::Wait
            },
            conversation_ended: state.timeout_imminent(),
        }
    }
}

/// The conversation and its schedule.
pub struct ConversationManager {
    pub conversation_state: ConversationState,
    /// The hours in which contact is permitted.
    pub window: QuietWindow,
    /// When the last check-in was sent, in seconds since the Unix epoch.
    pub last_check_in: i64,
}

impl ConversationManager {
    /// A manager with no conversation open, whose interval counts from
    /// `started_at`.
    pub fn new(window: QuietWindow, started_at: i64, timeout_limit: u64) -> (manager: Self)
        ensures
            manager.window == window,
            manager.last_check_in == started_at,
            manager.conversation_state@ == ConversationView::initial(timeout_limit as nat),
    {
        ConversationManager {
            conversation_state: ConversationState::with_timeout_limit(timeout_limit),
            window,
            last_check_in: started_at,
        }
    }

    /// Whether the tick at `now` will end the conversation, so that a
    /// recommendation for the next interval is wanted for it.
    pub fn wants_recommendation(&self, now: &LocalInstant) -> (wanted: bool)
        ensures
            wanted == (self.window.permits(now@.hour()) && self.conversation_state@.timeout_imminent()),
    {
        self.window.is_permitted(now.hour()) && self.conversation_state.timeout_imminent()
    }

    /// One tick at `now`. Outside the contact window nothing changes. Inside
    /// it the conversation counts the tick, and ends with `recommendation`
    /// where its limit of silent ticks is reached; then a check-in is asked
    /// for where one is due.
    pub fn tick(&mut self, now: &LocalInstant, recommendation: Option<&str>) -> (outcome:
        TickOutcome)
        ensures
            final(self).window == old(self).window,
            final(self).last_check_in == old(self).last_check_in,
            final(self).conversation_state@ == state_after_tick(
                old(self).conversation_state@,
                old(self).window,
                now@.hour(),
                recommended_interval(recommendation_bytes(recommendation)),
            ),
            outcome == tick_outcome(
                old(self).conversation_state@,
                old(self).window,
                old(self).last_check_in as int,
                now@,
                recommended_interval(recommendation_bytes(recommendation)),
            ),
    {
        if self.window.is_blocked(now.hour()) {
            return TickOutcome { action: TickAction::Deferred, conversation_ended: false };
        }
        let conversation_ended = self.conversation_state.on_tick(recommendation);
        let since: i128 = now.timestamp() as i128 - self.last_check_in as i128;
        let due = !self.conversation_state.in_conversation() && since
            >= self.conversation_state.current_interval() as i128;
        TickOutcome {
            action: if due {
                TickAction::SendCheckIn
            } else {
                TickAction::Wait
            },
            conversation_ended,
        }
    }

    /// A check-in went out at `now`: the conversation is open, and the
    /// interval counts from `now`.
    pub fn check_in_sent(&mut self, now: i64)
        ensures
            final(self).window == old(self).window,
            final(self).last_check_in == now,
            final(self).conversation_state@ == old(self).conversation_state@.started(),
    {
        self.conversation_state.start_conversation();
        self.last_check_in = now;
    }

    /// A direct message of the tracked user arrives.
    pub fn on_inbound_direct_message(&mut self, turn: ChatTurn)
        ensures
            final(self).window == old(self).window,
            final(self).last_check_in == old(self).last_check_in,
            final(self).conversation_state@ == old(self).conversation_state@.received(turn),
    {
        self.conversation_state.on_inbound_message(turn);
    }

    /// The user asks for the end of the conversation: it ends, whatever the
    /// count of silent ticks.
    pub fn request_end_conversation(&mut self, recommendation: Option<&str>) -> (rejected: Option<
        IntervalError,
    >)
        ensures
            final(self).window == old(self).window,
            final(self).last_check_in == old(self).last_check_in,
            final(self).conversation_state@ == old(self).conversation_state@.ended(
                recommended_interval(recommendation_bytes(recommendation)),
            ),
            rejected == rejection(recommendation_bytes(recommendation)),
    {
        self.conversation_state.end_conversation(recommendation)
    }
}

/// After a check-in went out none is due before a tick ends the
/// conversation that it opened.
pub proof fn no_check_in_during_conversation(state: ConversationView, last_check_in: int, now: int)
    ensures
        !check_in_due(state.started(), last_check_in, now),
{
}

/// Outside the contact window a tick changes nothing and asks for nothing.
pub proof fn blocked_tick_changes_nothing(
    state: ConversationView,
    window: QuietWindow,
    last_check_in: int,
    now: ClockReading,
    interval: Option<nat>,
)
    requires
        !window.permits(now.hour()),
    ensures
        state_after_tick(state, window, now.hour(), interval) == state,
        tick_outcome(state, window, last_check_in, now, interval).action == TickAction::Deferred,
        !tick_outcome(state, window, last_check_in, now, interval).conversation_ended,
{
}

} // verus!
