//! An accountability companion's core: it decides when a check-in with the
//! tracked user is due, how long to wait for a reply, when a conversation
//! ends, and which contact hours are allowed.

pub mod channel;
pub mod clock;
pub mod conversation;
pub mod conversation_manager;
pub mod interval;
pub mod interval_text;
pub mod quiet_hours;
pub mod sobriety;
pub mod support_net;
pub mod text;
