//! The companion of one tracked user: its configuration, the user's
//! conversation, and what it answers to a message.

use vstd::prelude::*;
use vstd::string::{is_ascii, StringExecFns, StringSliceAdditionalSpecFns};
use vstd::utf8::is_ascii_chars;
use crate::clock::{rfc3339_lookup, rfc3339_timestamp, timezone_lookup, zone_is_known};
use crate::clock::{zone_seconds_of_day, ClockReading, LocalInstant};
use crate::conversation::{ChatTurn, ConversationView, Role};
use crate::conversation::{recommendation_bytes, recommended_interval, rejection};
use crate::conversation_manager::{state_after_tick, tick_outcome, ConversationManager};
use crate::conversation_manager::TickOutcome;
use crate::interval::{stage_of, IntervalError, Stage};
use crate::quiet_hours::{contact_permitted, QuietWindow};
use crate::sobriety::{duration_text, elapsed, elapsed_days, elapsed_hours};
use crate::text::{append_signed_decimal, signed_decimal_text};

verus! {

pub const EARLY_SOBRIETY_GUIDELINES: &'static str =
    "Consider the following guidelines for early sobriety (less than 3 months): \
    \n\n- Mood: Good -> Check-in timer: 1-2 times per day (e.g., 12h or 8h) \
    \n- Mood: Moderate -> Check-in timer: 2-3 times per day (e.g., 6h or 4h) \
    \n- Mood: Low -> Check-in timer: 3-4 times per day (e.g., 4h, 3h, or 2h) ";

pub const MID_TERM_SOBRIETY_GUIDELINES: &'static str =
    "Consider the following guidelines for mid-term sobriety (3 months to 1 year): \
    \n\n- Mood: Good -> Check-in timer: Every 1-2 days (e.g., 1d, 1d 12h) \
    \n- Mood: Moderate -> Check-in timer: Every day (e.g., 24h) \
    \n- Mood: Low -> Check-in timer: Twice per day (e.g., 12h) ";

pub const LONG_TERM_SOBRIETY_GUIDELINES: &'static str =
    "Consider the following guidelines for long-term sobriety (1 year and beyond): \
    \n\n- Mood: Good -> Check-in timer: Every 3-7 days (e.g., 3d, 5d, 1w) \
    \n- Mood: Moderate -> Check-in timer: Every 1-3 days (e.g., 1d, 2d, 3d) \
    \n- Mood: Low -> Check-in timer: Every day (e.g., 24h) ";

/// How the answer to a request for an interval is to be written.
pub const INTERVAL_FORMAT_REQUEST: &'static str =
    "\n\nPlease provide your recommendation for a check-in timer ONLY in the format 'Xw Xd Xh Xm' where X is a number and w, d, h, and m stand for weeks, days, hours, and minutes, respectively. \
    You may leave out any time unit that is not needed. Do not include any additional text in your response.";

/// The guidelines of a stage.
pub open spec fn guidelines_text(stage: Stage) -> Seq<char> {
    match stage {
        Stage::Early => EARLY_SOBRIETY_GUIDELINES@,
        Stage::MidTerm => MID_TERM_SOBRIETY_GUIDELINES@,
        Stage::LongTerm => LONG_TERM_SOBRIETY_GUIDELINES@,
    }
}

/// The request for a check-in interval for a user who has been sober for
/// `days` days: the days and the name, the guidelines of the stage, and how
/// to write the answer.
pub open spec fn prompt_text(days: int, user_name: Seq<char>) -> Seq<char> {
    "Based on the user's sobriety duration ("@ + signed_decimal_text(days)
        + " days) and mood, determine an appropriate check-in timer for "@ + user_name
        + " in addiction recovery. "@ + guidelines_text(stage_of(days))
        + INTERVAL_FORMAT_REQUEST@
}

/// What is configured at startup.
pub struct SupportNetConfig {
    pub user_id: u64,
    pub user_name: String,
    /// The user's time zone, by its IANA name.
    pub user_timezone: String,
    /// The sobriety anchor, in seconds since the Unix epoch.
    pub user_sobriety_date: i64,
    /// The hours in which the user may be contacted.
    pub contact_window: QuietWindow,
}

/// The user whom `text` names to Discord, as serenity reads a user id or the
/// mention of a user; `None` where it reads none.
pub uninterp spec fn discord_user_id(text: Seq<char>) -> Option<u64>;

/// Calls `str::parse::<serenity::model::id::UserId>`. Not proved: that the
/// result depends on the text alone. The text is to be ASCII: serenity cuts a
/// mention before its last byte, and panics where that byte lies inside a
/// character.
#[verifier::external_body]
fn user_id_lookup(text: &str) -> (id: Option<u64>)
    requires
        is_ascii(text),
    ensures
        id == discord_user_id(text@),
{
    match text.parse::<serenity::model::id::UserId>() {
        Ok(id) => Some(id.0),
        Err(_) => None,
    }
}

/// Why a configuration is refused.
#[derive(Clone, Copy, Debug, PartialEq, Eq, Structural)]
pub enum ConfigError {
    /// The user id holds a character outside ASCII, or names no user.
    InvalidUserId,
    /// The time zone is no IANA name.
    InvalidTimezone,
    /// The sobriety date is no date and time with offset.
    InvalidSobrietyDate,
    /// An end of the contact window is no hour from 0 to 23.
    InvalidContactHours,
}

/// The user that a user id names, where it is ASCII and names one.
pub open spec fn named_user(user_id: Seq<char>) -> Option<u64> {
    if is_ascii_chars(user_id) {
        discord_user_id(user_id)
    } else {
        None
    }
}

/// The configuration of values that were looked up: `user` is the user that
/// the user id names, `timezone_known` tells whether the time zone is known,
/// and `sobriety_date` is the instant that the sobriety date writes. The user
/// is checked first, then the time zone, then the sobriety date, then the two
/// ends of the contact window.
pub fn assemble_config(
    user: Option<u64>,
    user_name: String,
    user_timezone: String,
    timezone_known: bool,
    sobriety_date: Option<i64>,
    contact_start_hour: u32,
    contact_end_hour: u32,
) -> (config: Result<SupportNetConfig, ConfigError>)
    ensures
        match config {
            Ok(c) => {
                &&& user == Some(c.user_id)
                &&& timezone_known
                &&& sobriety_date == Some(c.user_sobriety_date)
                &&& c.user_name == user_name
                &&& c.user_timezone == user_timezone
                &&& contact_start_hour <= 23 && contact_end_hour <= 23
                &&& c.contact_window == (QuietWindow {
                    start_hour: contact_start_hour,
                    end_hour: contact_end_hour,
                })
            },
            Err(ConfigError::InvalidUserId) => user is None,
            Err(ConfigError::InvalidTimezone) => user is Some && !timezone_known,
            Err(ConfigError::InvalidSobrietyDate) => user is Some && timezone_known
                && sobriety_date is None,
            Err(ConfigError::InvalidContactHours) => user is Some && timezone_known
                && sobriety_date is Some && (contact_start_hour > 23 || contact_end_hour > 23),
        },
{
    let user_id = match user {
        Some(id) => id,
        None => {
            return Err(ConfigError::InvalidUserId);
        },
    };
    if !timezone_known {
        return Err(ConfigError::InvalidTimezone);
    }
    let user_sobriety_date = match sobriety_date {
        Some(timestamp) => timestamp,
        None => {
            return Err(ConfigError::InvalidSobrietyDate);
        },
    };
    if contact_start_hour > 23 || contact_end_hour > 23 {
        return Err(ConfigError::InvalidContactHours);
    }
    Ok(
        SupportNetConfig {
            user_id,
            user_name,
            user_timezone,
            user_sobriety_date,
            contact_window: QuietWindow::new(contact_start_hour, contact_end_hour),
        },
    )
}

/// The configuration of the given values: the user id as Discord writes it,
/// the time zone by its IANA name, the sobriety date as a date and time with
/// offset, such as `2023-04-06T00:00:00-05:00`, and the two ends of the
/// contact window. It is what `assemble_config` makes of what they stand for.
pub fn config_from_values(
    user_id: &str,
    user_name: String,
    user_timezone: String,
    user_sobriety_date: &str,
    contact_start_hour: u32,
    contact_end_hour: u32,
) -> (config: Result<SupportNetConfig, ConfigError>)
    ensures
        match config {
            Ok(c) => {
                &&& named_user(user_id@) == Some(c.user_id)
                &&& zone_is_known(user_timezone@)
                &&& rfc3339_timestamp(user_sobriety_date@) == Some(c.user_sobriety_date)
                &&& c.user_name == user_name
                &&& c.user_timezone == user_timezone
                &&& contact_start_hour <= 23 && contact_end_hour <= 23
                &&& c.contact_window == (QuietWindow {
                    start_hour: contact_start_hour,
                    end_hour: contact_end_hour,
                })
            },
            Err(ConfigError::InvalidUserId) => named_user(user_id@) is None,
            Err(ConfigError::InvalidTimezone) => named_user(user_id@) is Some && !zone_is_known(
                user_timezone@,
            ),
            Err(ConfigError::InvalidSobrietyDate) => named_user(user_id@) is Some && zone_is_known(
                user_timezone@,
            ) && rfc3339_timestamp(user_sobriety_date@) is None,
            Err(ConfigError::InvalidContactHours) => named_user(user_id@) is Some && zone_is_known(
                user_timezone@,
            ) && rfc3339_timestamp(user_sobriety_date@) is Some && (contact_start_hour > 23
                || contact_end_hour > 23),
        },
{
    let user = if user_id.is_ascii() {
        user_id_lookup(user_id)
    } else {
        None
    };
    let timezone_known = timezone_lookup(user_timezone.as_str());
    let sobriety_date = rfc3339_lookup(user_sobriety_date);
    assemble_config(
        user,
        user_name,
        user_timezone,
        timezone_known,
        sobriety_date,
        contact_start_hour,
        contact_end_hour,
    )
}

/// A message as the transport hands it over.
pub struct InboundMessage {
    pub author_id: u64,
    /// Whether a bot wrote it.
    pub author_is_bot: bool,
    /// Whether it came as a direct message.
    pub is_direct: bool,
    pub content: String,
    /// When it was written, in seconds since the Unix epoch.
    pub timestamp: i64,
}

/// What to do about a message.
#[derive(Clone, Copy, Debug, PartialEq, Eq, Structural)]
pub enum MessageAction {
    /// Nothing: a bot wrote it, it was not direct, or a stranger wrote it.
    Ignored,
    /// A stranger asked for the end of the conversation: answer with
    /// `CONVERSATION_ENDED_REPLY`, and leave the conversation as it is.
    AcknowledgeEnd,
    /// The tracked user asked for the end of the conversation: answer with
    /// `CONVERSATION_ENDED_REPLY`, ask for a recommendation and end the
    /// conversation with it.
    EndConversation,
    /// The tracked user's message was taken into the conversation.
    Recorded,
}

/// The answer to the command that ends a conversation.
pub const CONVERSATION_ENDED_REPLY: &'static str =
    "Conversation ended. We'll check in with you later.";

/// Whether a message starts with the command `!end`.
pub open spec fn is_end_command(content: Seq<u8>) -> bool {
    content.len() >= 4 && content[0] == 33 && content[1] == 101 && content[2] == 110
        && content[3] == 100
}

/// What to do about a message of the given kind, where `tracked_user` is the
/// user whom the companion tracks.
pub open spec fn message_action(
    author_id: u64,
    author_is_bot: bool,
    is_direct: bool,
    content: Seq<u8>,
    tracked_user: u64,
) -> MessageAction {
    if author_is_bot || !is_direct {
        MessageAction::Ignored
    } else if is_end_command(content) {
        if author_id == tracked_user {
            MessageAction::EndConversation
        } else {
            MessageAction::AcknowledgeEnd
        }
    } else if author_id == tracked_user {
        MessageAction::Recorded
    } else {
        MessageAction::Ignored
    }
}

fn starts_with_end_command(content: &str) -> (found: bool)
    ensures
        found == is_end_command(content.spec_bytes()),
{
    let bytes = content.as_bytes();
    bytes.len() >= 4 && bytes[0] == 33 && bytes[1] == 101 && bytes[2] == 110 && bytes[3] == 100
}

/// The companion of one tracked user.
pub struct SupportNET {
    pub user_id: u64,
    pub user_name: String,
    /// The user's time zone, by its IANA name.
    pub user_timezone: String,
    /// The sobriety anchor, in seconds since the Unix epoch.
    pub user_sobriety_date: i64,
    /// The user's conversation and its schedule.
    pub conversation: ConversationManager,
}

impl SupportNET {
    /// Whether two companions are configured alike, and have sent their last
    /// check-in at the same time.
    pub open spec fn same_user(self, other: SupportNET) -> bool {
        &&& self.user_id == other.user_id
        &&& self.user_name == other.user_name
        &&& self.user_timezone == other.user_timezone
        &&& self.user_sobriety_date == other.user_sobriety_date
        &&& self.conversation.window == other.conversation.window
        &&& self.conversation.last_check_in == other.conversation.last_check_in
    }

    /// The conversation.
    pub open spec fn state(self) -> ConversationView {
        self.conversation.conversation_state@
    }

    /// The companion of a configuration, with no conversation open, a
    /// conversation that ends at the first silent tick, and the interval
    /// counted from `started_at`.
    pub fn new(config: SupportNetConfig, started_at: i64) -> (support_net: Self)
        ensures
            support_net.user_id == config.user_id,
            support_net.user_name == config.user_name,
            support_net.user_timezone == config.user_timezone,
            support_net.user_sobriety_date == config.user_sobriety_date,
            support_net.conversation.window == config.contact_window,
            support_net.conversation.last_check_in == started_at,
            support_net.state() == ConversationView::initial(1),
    {
        SupportNET {
            user_id: config.user_id,
            user_name: config.user_name,
            user_timezone: config.user_timezone,
            user_sobriety_date: config.user_sobriety_date,
            conversation: ConversationManager::new(config.contact_window, started_at, 1),
        }
    }

    /// Whether the tick at `now` will end the conversation, so that a
    /// recommendation for the next interval is wanted for it.
    pub fn wants_recommendation(&self, now: i64) -> (wanted: bool)
        ensures
            wanted == match zone_seconds_of_day(now as int, self.user_timezone@) {
                Some(s) => self.conversation.window.permits(s as int / 3600)
                    && self.state().timeout_imminent(),
                None => false,
            },
    {
        match LocalInstant::in_zone(now, self.user_timezone.as_str()) {
            Some(instant) => self.conversation.wants_recommendation(&instant),
            None => false,
        }
    }

    /// One tick at `now`, on the user's clock: see `ConversationManager::tick`.
    /// Where the user's clock cannot be read at `now`, nothing changes and
    /// the result is `None`.
    pub fn tick(&mut self, now: i64, recommendation: Option<&str>) -> (outcome: Option<
        TickOutcome,
    >)
        ensures
            final(self).same_user(*old(self)),
            match zone_seconds_of_day(now as int, old(self).user_timezone@) {
                Some(s) => {
                    let reading = ClockReading { timestamp: now as int, seconds_of_day: s as int };
                    &&& final(self).state() == state_after_tick(
                        old(self).state(),
                        old(self).conversation.window,
                        reading.hour(),
                        recommended_interval(recommendation_bytes(recommendation)),
                    )
                    &&& outcome == Some(
                        tick_outcome(
                            old(self).state(),
                            old(self).conversation.window,
                            old(self).conversation.last_check_in as int,
                            reading,
                            recommended_interval(recommendation_bytes(recommendation)),
                        ),
                    )
                },
                None => outcome is None && final(self).state() == old(self).state(),
            },
    {
        match LocalInstant::in_zone(now, self.user_timezone.as_str()) {
            Some(instant) => Some(self.conversation.tick(&instant, recommendation)),
            None => None,
        }
    }

    /// A check-in went out at `now`: the conversation is open, and the
    /// interval counts from `now`.
    pub fn check_in_sent(&mut self, now: i64)
        ensures
            final(self).user_id == old(self).user_id,
            final(self).user_name == old(self).user_name,
            final(self).user_timezone == old(self).user_timezone,
            final(self).user_sobriety_date == old(self).user_sobriety_date,
            final(self).conversation.window == old(self).conversation.window,
            final(self).conversation.last_check_in == now,
            final(self).state() == old(self).state().started(),
    {
        self.conversation.check_in_sent(now);
    }

    /// The count of silent ticks starts anew.
    pub fn reset_timeout_counter(&mut self)
        ensures
            final(self).same_user(*old(self)),
            final(self).state() == (ConversationView { timeout_counter: 0, ..old(self).state() }),
    {
        self.conversation.conversation_state.reset_timeout_counter();
    }

    /// Opens a conversation, or goes on with the open one.
    pub fn start_conversation(&mut self)
        ensures
            final(self).same_user(*old(self)),
            final(self).state() == old(self).state().started(),
    {
        self.conversation.conversation_state.start_conversation();
    }

    /// Ends the conversation; the recommendation, where it is an interval,
    /// becomes the interval to the next check-in.
    pub fn end_conversation(&mut self, recommendation: Option<&str>) -> (rejected: Option<
        IntervalError,
    >)
        ensures
            final(self).same_user(*old(self)),
            final(self).state() == old(self).state().ended(
                recommended_interval(recommendation_bytes(recommendation)),
            ),
            rejected == rejection(recommendation_bytes(recommendation)),
    {
        self.conversation.conversation_state.end_conversation(recommendation)
    }

    /// Decides what to do about a message, and takes a message of the
    /// tracked user into the conversation.
    pub fn handle_message(&mut self, message: InboundMessage) -> (action: MessageAction)
        ensures
            final(self).same_user(*old(self)),
            action == message_action(
                message.author_id,
                message.author_is_bot,
                message.is_direct,
                vstd::utf8::encode_utf8(message.content@),
                old(self).user_id,
            ),
            final(self).state() == if action == MessageAction::Recorded {
                old(self).state().received(
                    ChatTurn {
                        role: Role::User,
                        content: message.content,
                        timestamp: message.timestamp,
                    },
                )
            } else {
                old(self).state()
            },
    {
        if message.author_is_bot || !message.is_direct {
            return MessageAction::Ignored;
        }
        if starts_with_end_command(message.content.as_str()) {
            if message.author_id == self.user_id {
                return MessageAction::EndConversation;
            }
            return MessageAction::AcknowledgeEnd;
        }
        if message.author_id != self.user_id {
            return MessageAction::Ignored;
        }
        let turn = ChatTurn {
            role: Role::User,
            content: message.content,
            timestamp: message.timestamp,
        };
        self.conversation.conversation_state.on_inbound_message(turn);
        MessageAction::Recorded
    }

    /// The instant to count to: `reference_time`, or `now` without one.
    pub open spec fn reference_instant(reference_time: Option<i64>, now: i64) -> int {
        match reference_time {
            Some(t) => t as int,
            None => now as int,
        }
    }

    /// The sobriety so far in words, such as `10 days and 0 hours`, counted
    /// to `reference_time`, or to `now` without one.
    pub fn get_sobriety_duration(&self, reference_time: Option<i64>, now: i64) -> (text: String)
        ensures
            text@ == duration_text(
                elapsed_days(
                    self.user_sobriety_date as int,
                    Self::reference_instant(reference_time, now),
                ),
                elapsed_hours(
                    self.user_sobriety_date as int,
                    Self::reference_instant(reference_time, now),
                ),
            ),
    {
        let reference = match reference_time {
            Some(t) => t,
            None => now,
        };
        elapsed(self.user_sobriety_date, reference).to_text()
    }

    /// The whole days of sobriety, counted to `reference_time`, or to `now`
    /// without one.
    pub fn get_sobriety_duration_days(&self, reference_time: Option<i64>, now: i64) -> (days: i64)
        ensures
            days == elapsed_days(
                self.user_sobriety_date as int,
                Self::reference_instant(reference_time, now),
            ),
    {
        let reference = match reference_time {
            Some(t) => t,
            None => now,
        };
        elapsed(self.user_sobriety_date, reference).days
    }

    /// The time of day on the user's clock at `now`, as `HH:MM:SS`; `None`
    /// where the user's time zone is unknown or `now` beyond the calendar.
    pub fn get_user_current_time(&self, now: i64) -> (text: Option<String>)
        ensures
            match zone_seconds_of_day(now as int, self.user_timezone@) {
                Some(s) => text matches Some(t) && t@ == (ClockReading {
                    timestamp: now as int,
                    seconds_of_day: s as int,
                }).clock_text(),
                None => text is None,
            },
    {
        match LocalInstant::in_zone(now, self.user_timezone.as_str()) {
            Some(instant) => Some(instant.clock_text()),
            None => None,
        }
    }

    /// Whether the hour of `user_time` lies outside the hours from
    /// `start_hour` up to, and without, `end_hour`.
    pub fn is_time_outside_range(
        &self,
        user_time: &LocalInstant,
        start_hour: u32,
        end_hour: u32,
    ) -> (outside: bool)
        ensures
            outside == !contact_permitted(user_time@.hour(), start_hour as int, end_hour as int),
    {
        QuietWindow::new(start_hour, end_hour).is_blocked(user_time.hour())
    }

    /// The request for a check-in interval for the user after
    /// `sobriety_duration_days` days of sobriety.
    pub fn get_check_in_time_prompt(&self, sobriety_duration_days: i64) -> (prompt: String)
        ensures
            prompt@ == prompt_text(sobriety_duration_days as int, self.user_name@),
    {
        let mut prompt = String::from_str("Based on the user's sobriety duration (");
        append_signed_decimal(&mut prompt, sobriety_duration_days);
        prompt.append(" days) and mood, determine an appropriate check-in timer for ");
        prompt.append(self.user_name.as_str());
        prompt.append(" in addiction recovery. ");
        match Stage::for_days(sobriety_duration_days) {
            Stage::Early => prompt.append(EARLY_SOBRIETY_GUIDELINES),
            Stage::MidTerm => prompt.append(MID_TERM_SOBRIETY_GUIDELINES),
            Stage::LongTerm => prompt.append(LONG_TERM_SOBRIETY_GUIDELINES),
        }
        prompt.append(INTERVAL_FORMAT_REQUEST);
        assert(prompt@ =~= prompt_text(sobriety_duration_days as int, self.user_name@));
        prompt
    }
}

} // verus!
