//! The conversation with the tracked user: whether one is open, what was
//! said in it, how long the user has been silent, and how long to wait until
//! the next check-in.

use vstd::prelude::*;
use vstd::string::StringSliceAdditionalSpecFns;
use crate::interval::{interval_seconds, parse_interval, CHECK_IN_TIMEOUT};

verus! {

/// Whether a conversation is open.
#[derive(Clone, Copy, Debug, PartialEq, Eq, Structural)]
pub enum Phase {
    /// No conversation is open.
    Idle,
    /// A conversation is open: messages are awaited or exchanged.
    Active,
}

/// Who wrote a turn.
#[derive(Clone, Copy, Debug, PartialEq, Eq, Structural)]
pub enum Role {
    User,
    System,
}

/// One message of a conversation. `timestamp` is in seconds since the Unix
/// epoch.
#[derive(Clone, Debug)]
pub struct ChatTurn {
    pub role: Role,
    pub content: String,
    pub timestamp: i64,
}

/// What a conversation state holds.
pub struct ConversationView {
    pub phase: Phase,
    pub history: Seq<ChatTurn>,
    /// The ticks in a row without a message from the user.
    pub timeout_counter: nat,
    /// The seconds from one check-in to the next.
    pub current_interval: nat,
    /// The number of silent ticks at which a conversation ends.
    pub timeout_limit: nat,
}

/// The interval that a recommendation gives: its seconds where the text is an
/// interval that fits, `None` where there is no recommendation or it is
/// rejected.
pub open spec fn recommended_interval(recommendation: Option<Seq<u8>>) -> Option<nat> {
    match recommendation {
        Some(text) => match interval_seconds(text) {
            Some(seconds) => if seconds <= u64::MAX {
                Some(seconds)
            } else {
                None
            },
            None => None,
        },
        None => None,
    }
}

impl ConversationView {
    /// The state at the start: no conversation, the interval of 150 minutes,
    /// and the given number of silent ticks at which a conversation ends.
    pub open spec fn initial(timeout_limit: nat) -> ConversationView {
        ConversationView {
            phase: Phase::Idle,
            history: Seq::empty(),
            timeout_counter: 0,
            current_interval: CHECK_IN_TIMEOUT as nat,
            timeout_limit,
        }
    }

    /// While no conversation is open the counter is 0 and the history is
    /// empty; the counter stays under the limit at which a conversation ends
    /// (with a limit of 0 or 1 it stays 0).
    pub open spec fn well_formed(self) -> bool {
        &&& self.phase == Phase::Idle ==> self.timeout_counter == 0 && self.history.len() == 0
        &&& self.timeout_counter == 0 || self.timeout_counter < self.timeout_limit
    }

    /// The state when a conversation is opened, or goes on, without a message.
    pub open spec fn started(self) -> ConversationView {
        ConversationView { phase: Phase::Active, timeout_counter: 0, ..self }
    }

    /// The state when a message arrives.
    pub open spec fn received(self, turn: ChatTurn) -> ConversationView {
        ConversationView {
            phase: Phase::Active,
            timeout_counter: 0,
            history: self.history.push(turn),
            ..self
        }
    }

    /// The state when the conversation ends. The interval becomes `interval`,
    /// or stays where that is `None`.
    pub open spec fn ended(self, interval: Option<nat>) -> ConversationView {
        ConversationView {
            phase: Phase::Idle,
            timeout_counter: 0,
            history: Seq::empty(),
            current_interval: match interval {
                Some(seconds) => seconds,
                None => self.current_interval,
            },
            ..self
        }
    }

    /// Whether the next tick ends the conversation.
    pub open spec fn timeout_imminent(self) -> bool {
        self.phase == Phase::Active && self.timeout_counter + 1 >= self.timeout_limit
    }

    /// The state after a tick: an open conversation counts one more silent
    /// tick, and ends where that reaches the limit.
    pub open spec fn ticked(self, interval: Option<nat>) -> ConversationView {
        if self.timeout_imminent() {
            self.ended(interval)
        } else if self.phase == Phase::Active {
            ConversationView { timeout_counter: self.timeout_counter + 1, ..self }
        } else {
            self
        }
    }
}

/// The conversation with the tracked user.
pub struct ConversationState {
    phase: Phase,
    history: Vec<ChatTurn>,
    timeout_counter: u64,
    current_interval: u64,
    timeout_limit: u64,
}

impl View for ConversationState {
    type V = ConversationView;

    closed spec fn view(&self) -> ConversationView {
        ConversationView {
            phase: self.phase,
            history: self.history@,
            timeout_counter: self.timeout_counter as nat,
            current_interval: self.current_interval as nat,
            timeout_limit: self.timeout_limit as nat,
        }
    }
}

impl Default for ConversationState {
    /// No conversation, the interval of 150 minutes, and a conversation that
    /// ends at the first silent tick.
    fn default() -> (state: Self)
        ensures
            state@ == ConversationView::initial(1),
    {
        ConversationState::with_timeout_limit(1)
    }
}

impl ConversationState {
    #[verifier::type_invariant]
    closed spec fn holds_together(self) -> bool {
        self@.well_formed()
    }

    /// No conversation, the interval of 150 minutes, and the given number of
    /// silent ticks at which a conversation ends.
    pub fn with_timeout_limit(timeout_limit: u64) -> (state: Self)
        ensures
            state@ == ConversationView::initial(timeout_limit as nat),
    {
        ConversationState {
            phase: Phase::Idle,
            history: Vec::new(),
            timeout_counter: 0,
            current_interval: CHECK_IN_TIMEOUT,
            timeout_limit,
        }
    }

    /// The phase. It also tells that the state is well formed, as that of
    /// every value of this type is.
    pub fn phase(&self) -> (phase: Phase)
        ensures
            phase == self@.phase,
            self@.well_formed(),
    {
        proof {
            use_type_invariant(self);
        }
        self.phase
    }

    /// Whether a conversation is open.
    pub fn in_conversation(&self) -> (open: bool)
        ensures
            open == (self@.phase == Phase::Active),
    {
        match self.phase {
            Phase::Active => true,
            Phase::Idle => false,
        }
    }

    pub fn history(&self) -> (history: &Vec<ChatTurn>)
        ensures
            history@ == self@.history,
    {
        &self.history
    }

    pub fn timeout_counter(&self) -> (count: u64)
        ensures
            count == self@.timeout_counter,
    {
        self.timeout_counter
    }

    pub fn current_interval(&self) -> (seconds: u64)
        ensures
            seconds == self@.current_interval,
    {
        self.current_interval
    }

    pub fn timeout_limit(&self) -> (limit: u64)
        ensures
            limit == self@.timeout_limit,
    {
        self.timeout_limit
    }

    /// Whether the next tick ends the conversation.
    pub fn timeout_imminent(&self) -> (imminent: bool)
        ensures
            imminent == self@.timeout_imminent(),
    {
        proof {
            use_type_invariant(self);
        }
        match self.phase {
            Phase::Active => self.timeout_counter + 1 >= self.timeout_limit,
            Phase::Idle => false,
        }
    }

    /// Opens a conversation. Where one is open already, it goes on with its
    /// history, and the count of silent ticks starts anew.
    pub fn start_conversation(&mut self)
        ensures
            final(self)@ == old(self)@.started(),
            final(self)@.well_formed(),
    {
        proof {
            use_type_invariant(&*self);
        }
        self.timeout_counter = 0;
        self.phase = Phase::Active;
    }

    /// The count of silent ticks starts anew; nothing else changes.
    pub fn reset_timeout_counter(&mut self)
        ensures
            final(self)@ == (ConversationView { timeout_counter: 0, ..old(self)@ }),
            final(self)@.well_formed(),
    {
        proof {
            use_type_invariant(&*self);
        }
        self.timeout_counter = 0;
    }

    /// A message arrives: it opens a conversation where none is open, joins
    /// the history, and the count of silent ticks starts anew.
    pub fn on_inbound_message(&mut self, turn: ChatTurn)
        ensures
            final(self)@ == old(self)@.received(turn),
            final(self)@.well_formed(),
    {
        proof {
            use_type_invariant(&*self);
        }
        self.timeout_counter = 0;
        self.phase = Phase::Active;
        let mut history: Vec<ChatTurn> = Vec::new();
        std::mem::swap(&mut self.history, &mut history);
        history.push(turn);
        std::mem::swap(&mut self.history, &mut history);
    }

    /// Ends the conversation, whatever the state. Where `recommendation` is
    /// an interval, it becomes the interval to the next check-in; with no
    /// recommendation, or one that is rejected, the interval stays. The
    /// result is the reason for which a recommendation was rejected.
    pub fn end_conversation(&mut self, recommendation: Option<&str>) -> (rejected: Option<
        crate::interval::IntervalError,
    >)
        ensures
            final(self)@ == old(self)@.ended(
                recommended_interval(recommendation_bytes(recommendation)),
            ),
            final(self)@.well_formed(),
            rejected == rejection(recommendation_bytes(recommendation)),
    {
        proof {
            use_type_invariant(&*self);
        }
        let mut rejected = None;
        if let Some(text) = recommendation {
            match parse_interval(text) {
                Ok(seconds) => {
                    self.current_interval = seconds;
                },
                Err(e) => {
                    rejected = Some(e);
                },
            }
        }
        self.history = Vec::new();
        self.timeout_counter = 0;
        self.phase = Phase::Idle;
        assert(self@.history =~= Seq::<ChatTurn>::empty());
        rejected
    }

    /// One tick of the scheduler. An open conversation counts one more
    /// silent tick; where that reaches the limit, the conversation ends as
    /// `end_conversation` says. The result tells whether it ended.
    pub fn on_tick(&mut self, recommendation: Option<&str>) -> (ended: bool)
        ensures
            final(self)@ == old(self)@.ticked(
                recommended_interval(recommendation_bytes(recommendation)),
            ),
            final(self)@.well_formed(),
            ended == old(self)@.timeout_imminent(),
    {
        proof {
            use_type_invariant(&*self);
        }
        if self.timeout_imminent() {
            let _ = self.end_conversation(recommendation);
            true
        } else {
            match self.phase {
                Phase::Active => {
                    self.timeout_counter = self.timeout_counter + 1;
                },
                Phase::Idle => {},
            }
            false
        }
    }
}

/// The bytes of a recommendation.
pub open spec fn recommendation_bytes(recommendation: Option<&str>) -> Option<Seq<u8>> {
    match recommendation {
        Some(text) => Some(text.spec_bytes()),
        None => None,
    }
}

/// Why a recommendation is rejected, `None` where there is none or it is an
/// interval that fits.
pub open spec fn rejection(recommendation: Option<Seq<u8>>) -> Option<
    crate::interval::IntervalError,
> {
    match recommendation {
        Some(text) => match interval_seconds(text) {
            Some(seconds) => if seconds <= u64::MAX {
                None
            } else {
                Some(crate::interval::IntervalError::IntervalTooLong)
            },
            None => Some(crate::interval::IntervalError::InvalidIntervalFormat),
        },
        None => None,
    }
}

/// A message to an idle state opens a conversation with no silent tick and
/// that one message as its history; a second message keeps the conversation
/// open, with no silent tick counted and both messages as its history.
pub proof fn messages_open_and_extend(state: ConversationView, first: ChatTurn, second: ChatTurn)
    requires
        state.well_formed(),
        state.phase == Phase::Idle,
    ensures
        state.received(first).phase == Phase::Active,
        state.received(first).timeout_counter == 0,
        state.received(first).history == seq![first],
        state.received(first).received(second).phase == Phase::Active,
        state.received(first).received(second).timeout_counter == 0,
        state.received(first).received(second).history == seq![first, second],
{
    assert(state.history =~= Seq::<ChatTurn>::empty());
    assert(state.received(first).history =~= seq![first]);
    assert(state.received(first).received(second).history =~= seq![first, second]);
}

/// Ending a conversation leaves no conversation open, no silent tick counted
/// and an empty history, whatever the state was.
pub proof fn end_leaves_idle(state: ConversationView, interval: Option<nat>)
    ensures
        state.ended(interval).phase == Phase::Idle,
        state.ended(interval).timeout_counter == 0,
        state.ended(interval).history.len() == 0,
        state.ended(interval).well_formed(),
{
}

/// Every transition leads from a well-formed state to a well-formed state.
pub proof fn transitions_keep_well_formed(
    state: ConversationView,
    turn: ChatTurn,
    interval: Option<nat>,
)
    requires
        state.well_formed(),
    ensures
        state.started().well_formed(),
        state.received(turn).well_formed(),
        state.ended(interval).well_formed(),
        state.ticked(interval).well_formed(),
{
}

/// A message that arrives before a tick keeps that tick from ending the
/// conversation, unless the limit is a single silent tick.
pub proof fn message_defers_timeout(state: ConversationView, turn: ChatTurn, interval: Option<nat>)
    requires
        state.well_formed(),
        state.timeout_limit > 1,
    ensures
        state.received(turn).ticked(interval).phase == Phase::Active,
        state.received(turn).ticked(interval).timeout_counter == 1,
        state.received(turn).ticked(interval).history == state.history.push(turn),
{
}

} // verus!
