//! The transports through which the companion reaches its user, and the
//! support system that sends its check-ins through one of them.

use vstd::prelude::*;
use crate::clock::LocalInstant;
use crate::conversation::{recommendation_bytes, recommended_interval, ConversationView};
use crate::conversation_manager::{state_after_tick, tick_outcome, ConversationManager};
use crate::conversation_manager::TickAction;
use crate::quiet_hours::QuietWindow;
use crate::support_net::InboundMessage;

verus! {

/// Why a transport did not send or receive.
#[derive(Clone, Debug)]
pub enum TransportError {
    /// The transport has nothing to send or receive with.
    Unavailable,
    /// The transport tried and failed, for the reason given.
    Failed(String),
}

/// A transport. Nothing is known of what an implementation does with a
/// message, nor of when it fails.
pub trait CommunicationChannel {
    fn send_message(&self, recipient: &str, message: &str) -> Result<(), TransportError>;

    fn receive_message(&self) -> Result<InboundMessage, TransportError>;
}

/// The transport over SMS. It has no gateway: it is unavailable for sending
/// and for receiving.
pub struct SMSManager {}

impl CommunicationChannel for SMSManager {
    fn send_message(&self, recipient: &str, message: &str) -> (sent: Result<(), TransportError>)
        ensures
            sent == Err::<(), TransportError>(TransportError::Unavailable),
    {
        Err(TransportError::Unavailable)
    }

    fn receive_message(&self) -> (received: Result<InboundMessage, TransportError>)
        ensures
            received == Err::<InboundMessage, TransportError>(TransportError::Unavailable),
    {
        Err(TransportError::Unavailable)
    }
}

/// What the check-in prompt says.
pub const CHECK_IN_PROMPT: &'static str = "Check in";

/// What came of a tick of the support system.
#[derive(Clone, Debug)]
pub enum CheckInOutcome {
    /// The hour is outside the contact window.
    Deferred,
    /// No check-in is due.
    NotDue,
    /// A check-in was due and went out: a conversation is open.
    Sent,
    /// A check-in was due and the transport failed: nothing was recorded, and
    /// the next tick tries again.
    SendFailed(TransportError),
}

/// The support system: a transport, and the conversation with its schedule.
pub struct Support {
    pub communication_channel: Box<dyn CommunicationChannel>,
    pub manager: ConversationManager,
}

impl Support {
    /// A support system over a transport, with no conversation open, contact
    /// permitted at every hour, and the interval counted from the Unix epoch.
    pub fn new(communication_channel: Box<dyn CommunicationChannel>) -> (support: Self)
        ensures
            support.communication_channel === communication_channel,
            support.manager.window == (QuietWindow { start_hour: 0, end_hour: 24 }),
            support.manager.last_check_in == 0,
            support.manager.conversation_state@ == ConversationView::initial(1),
    {
        Support {
            communication_channel,
            manager: ConversationManager::new(QuietWindow::new(0, 24), 0, 1),
        }
    }

    /// Records what the transport answered to a check-in at `now`: sent, the
    /// conversation is open and the interval counts from `now`; failed, nothing
    /// changes.
    pub fn record_send(
        manager: &mut ConversationManager,
        sent: Result<(), TransportError>,
        now: i64,
    ) -> (outcome: CheckInOutcome)
        ensures
            final(manager).window == old(manager).window,
            match sent {
                Ok(_) => {
                    &&& outcome is Sent
                    &&& final(manager).last_check_in == now
                    &&& final(manager).conversation_state@ == old(
                        manager,
                    ).conversation_state@.started()
                },
                Err(e) => {
                    &&& outcome == CheckInOutcome::SendFailed(e)
                    &&& final(manager).last_check_in == old(manager).last_check_in
                    &&& final(manager).conversation_state@ == old(manager).conversation_state@
                },
            },
    {
        match sent {
            Ok(_) => {
                manager.check_in_sent(now);
                CheckInOutcome::Sent
            },
            Err(e) => CheckInOutcome::SendFailed(e),
        }
    }

    /// One tick at `now`: the manager's tick, and where that asks for a
    /// check-in, the prompt to `recipient` through the transport. Whether the
    /// transport sends is its own matter; what follows from either answer is
    /// what `record_send` says.
    pub fn process_check_in(
        &mut self,
        recipient: &str,
        now: &LocalInstant,
        recommendation: Option<&str>,
    ) -> (outcome: CheckInOutcome)
        ensures
            final(self).manager.window == old(self).manager.window,
            ({
                let interval = recommended_interval(recommendation_bytes(recommendation));
                let ticked = state_after_tick(
                    old(self).manager.conversation_state@,
                    old(self).manager.window,
                    now@.hour(),
                    interval,
                );
                let asked = tick_outcome(
                    old(self).manager.conversation_state@,
                    old(self).manager.window,
                    old(self).manager.last_check_in as int,
                    now@,
                    interval,
                ).action;
                match outcome {
                    CheckInOutcome::Deferred => {
                        &&& asked == TickAction::Deferred
                        &&& final(self).manager.last_check_in == old(self).manager.last_check_in
                        &&& final(self).manager.conversation_state@ == ticked
                    },
                    CheckInOutcome::NotDue => {
                        &&& asked == TickAction::Wait
                        &&& final(self).manager.last_check_in == old(self).manager.last_check_in
                        &&& final(self).manager.conversation_state@ == ticked
                    },
                    CheckInOutcome::Sent => {
                        &&& asked == TickAction::SendCheckIn
                        &&& final(self).manager.last_check_in == now@.timestamp
                        &&& final(self).manager.conversation_state@ == ticked.started()
                    },
                    CheckInOutcome::SendFailed(_) => {
                        &&& asked == TickAction::SendCheckIn
                        &&& final(self).manager.last_check_in == old(self).manager.last_check_in
                        &&& final(self).manager.conversation_state@ == ticked
                    },
                }
            }),
    {
        let ticked = self.manager.tick(now, recommendation);
        match ticked.action {
            TickAction::Deferred => CheckInOutcome::Deferred,
            TickAction::Wait => CheckInOutcome::NotDue,
            TickAction::SendCheckIn => {
                let sent = self.communication_channel.send_message(recipient, CHECK_IN_PROMPT);
                Support::record_send(&mut self.manager, sent, now.timestamp())
            },
        }
    }
}

} // verus!
