use chrono::TimeZone;
use chrono_tz::America;
use support_net::clock::LocalInstant;
use support_net::conversation::{ChatTurn, ConversationState, Phase, Role};
use support_net::conversation_manager::{TickAction, TickOutcome};
use support_net::interval::CHECK_IN_TIMEOUT;
use support_net::quiet_hours::QuietWindow;
use support_net::support_net::{
    assemble_config, config_from_values, ConfigError, InboundMessage, MessageAction, SupportNET,
    CONVERSATION_ENDED_REPLY, EARLY_SOBRIETY_GUIDELINES, INTERVAL_FORMAT_REQUEST,
    LONG_TERM_SOBRIETY_GUIDELINES, MID_TERM_SOBRIETY_GUIDELINES,
};

const ZONE: &str = "America/Chicago";

fn chicago(year: i32, month: u32, day: u32, hour: u32, minute: u32) -> i64 {
    America::Chicago
        .with_ymd_and_hms(year, month, day, hour, minute, 0)
        .unwrap()
        .timestamp()
}

fn setup_test_support_net(user_sobriety_date: Option<i64>) -> SupportNET {
    let config = config_from_values(
        "42",
        "test_user".to_string(),
        ZONE.to_string(),
        "2023-04-06T00:00:00-05:00",
        9,
        17,
    )
    .expect("Failed to initialize SupportNET for test");
    let mut support_net = SupportNET::new(config, 0);
    if let Some(date) = user_sobriety_date {
        support_net.user_sobriety_date = date;
    }
    support_net
}

fn message(author_id: u64, bot: bool, direct: bool, content: &str) -> InboundMessage {
    InboundMessage {
        author_id,
        author_is_bot: bot,
        is_direct: direct,
        content: content.to_string(),
        timestamp: 1_700_000_000,
    }
}

#[test]
fn test_get_sobriety_duration_days() {
    let support_net = setup_test_support_net(Some(chicago(2023, 4, 7, 0, 0)));
    let reference_time = chicago(2023, 4, 17, 0, 0);
    assert_eq!(support_net.get_sobriety_duration_days(Some(reference_time), 0), 10);

    let support_net = setup_test_support_net(Some(chicago(2023, 3, 28, 0, 0)));
    let reference_time = chicago(2023, 4, 17, 0, 0);
    assert_eq!(support_net.get_sobriety_duration_days(Some(reference_time), 0), 20);

    let support_net = setup_test_support_net(Some(chicago(2023, 3, 18, 0, 0)));
    let reference_time = chicago(2023, 4, 17, 0, 0);
    assert_eq!(support_net.get_sobriety_duration_days(Some(reference_time), 0), 30);
}

#[test]
fn test_get_check_in_time_prompt() {
    let support_net = setup_test_support_net(None);

    let prompt_early = support_net.get_check_in_time_prompt(30);
    assert!(prompt_early.contains(EARLY_SOBRIETY_GUIDELINES));

    let prompt_mid_term = support_net.get_check_in_time_prompt(180);
    assert!(prompt_mid_term.contains(MID_TERM_SOBRIETY_GUIDELINES));

    let prompt_long_term = support_net.get_check_in_time_prompt(400);
    assert!(prompt_long_term.contains(LONG_TERM_SOBRIETY_GUIDELINES));
}

#[test]
fn test_is_time_outside_range() {
    let support_net = setup_test_support_net(None);
    let zone = support_net.user_timezone.clone();

    let user_time = LocalInstant::in_zone(chicago(2023, 4, 17, 13, 0), &zone).unwrap();
    assert_eq!(support_net.is_time_outside_range(&user_time, 9, 17), false);

    let user_time = LocalInstant::in_zone(chicago(2023, 4, 17, 8, 0), &zone).unwrap();
    assert_eq!(support_net.is_time_outside_range(&user_time, 9, 17), true);

    let user_time = LocalInstant::in_zone(chicago(2023, 4, 17, 22, 0), &zone).unwrap();
    assert_eq!(support_net.is_time_outside_range(&user_time, 17, 9), false);

    let user_time = LocalInstant::in_zone(chicago(2023, 4, 17, 12, 0), &zone).unwrap();
    assert_eq!(support_net.is_time_outside_range(&user_time, 17, 9), true);
}

#[test]
fn test_get_user_current_time() {
    let support_net = setup_test_support_net(None);

    let now = chrono::Utc::now();
    let current_time_str = support_net.get_user_current_time(now.timestamp()).unwrap();
    let current_time =
        chrono::naive::NaiveTime::parse_from_str(&current_time_str, "%H:%M:%S").unwrap();

    let actual_local_time = now.with_timezone(&America::Chicago);

    assert_eq!(current_time.format("%H:%M:%S").to_string(), current_time_str);

    let acceptable_duration = chrono::Duration::minutes(1);
    let time_difference = actual_local_time.time().signed_duration_since(current_time);
    let time_difference_abs = if time_difference < chrono::Duration::zero() {
        -time_difference
    } else {
        time_difference
    };

    assert!(
        time_difference_abs < acceptable_duration,
        "Returned time is not within the acceptable range"
    );
}

#[test]
fn test_start_conversation() {
    let mut support_net = setup_test_support_net(None);

    assert_eq!(support_net.conversation.conversation_state.in_conversation(), false);

    support_net.start_conversation();

    assert_eq!(support_net.conversation.conversation_state.in_conversation(), true);
    assert_eq!(support_net.conversation.conversation_state.timeout_counter(), 0);
}

#[test]
fn test_end_conversation() {
    let mut support_net = setup_test_support_net(None);
    support_net.conversation.conversation_state = ConversationState::with_timeout_limit(5);
    support_net.start_conversation();

    // An ongoing conversation: one message, then two silent ticks.
    support_net.conversation.conversation_state.on_inbound_message(ChatTurn {
        role: Role::System,
        content: "Test message".to_string(),
        timestamp: 0,
    });
    assert!(!support_net.conversation.conversation_state.on_tick(None));
    assert!(!support_net.conversation.conversation_state.on_tick(None));
    assert_eq!(support_net.conversation.conversation_state.timeout_counter(), 2);
    assert_eq!(support_net.conversation.conversation_state.history().len(), 1);

    assert_eq!(support_net.end_conversation(None), None);

    assert_eq!(support_net.conversation.conversation_state.in_conversation(), false);
    assert_eq!(support_net.conversation.conversation_state.timeout_counter(), 0);
    assert!(support_net.conversation.conversation_state.history().is_empty());
    assert_eq!(support_net.conversation.conversation_state.current_interval(), CHECK_IN_TIMEOUT);
}

#[test]
fn test_get_sobriety_duration() {
    let reference_time = chicago(2023, 4, 10, 6, 45);

    let test_cases = vec![
        (chicago(2023, 4, 9, 6, 45), "1 day and 0 hours"),
        (chicago(2023, 4, 8, 6, 45), "2 days and 0 hours"),
        (chicago(2023, 4, 10, 1, 45), "0 days and 5 hours"),
    ];

    for (sobriety_date, expected_output) in test_cases {
        let support_net = setup_test_support_net(Some(sobriety_date));

        let sobriety_duration = support_net.get_sobriety_duration(Some(reference_time), 0);
        assert_eq!(sobriety_duration, expected_output);
    }
}

#[test]
fn sobriety_duration_counts_to_now_without_reference() {
    let support_net = setup_test_support_net(Some(1_000_000));
    assert_eq!(
        support_net.get_sobriety_duration(None, 1_000_000 + 86400 + 3600),
        "1 day and 1 hour"
    );
    assert_eq!(support_net.get_sobriety_duration_days(None, 1_000_000 + 3 * 86400), 3);
}

#[test]
fn sobriety_duration_before_anchor_is_negative() {
    let support_net = setup_test_support_net(Some(1_000_000));
    assert_eq!(
        support_net.get_sobriety_duration(Some(1_000_000 - 86400 - 2 * 3600 - 5), 0),
        "-1 days and -2 hours"
    );
}

#[test]
fn config_keeps_values_and_reads_the_date() {
    let config = config_from_values(
        "7",
        "sam".to_string(),
        "America/Chicago".to_string(),
        "2023-04-06T00:00:00-05:00",
        21,
        7,
    )
    .unwrap();
    assert_eq!(config.contact_window, QuietWindow { start_hour: 21, end_hour: 7 });
    assert_eq!(config.user_id, 7);
    assert_eq!(config.user_name, "sam");
    assert_eq!(config.user_timezone, "America/Chicago");
    assert_eq!(config.user_sobriety_date, 1680757200);
}

#[test]
fn config_reads_user_id_from_mention() {
    let date = "2023-04-06T00:00:00-05:00";
    let zone = || "America/Chicago".to_string();
    let config = config_from_values("<@114941315417899012>", "sam".to_string(), zone(), date, 0, 0);
    assert_eq!(config.unwrap().user_id, 114941315417899012);
    let config = config_from_values("<@!9>", "sam".to_string(), zone(), date, 0, 0);
    assert_eq!(config.unwrap().user_id, 9);
    let config = config_from_values("18446744073709551615", "sam".to_string(), zone(), date, 0, 0);
    assert_eq!(config.unwrap().user_id, u64::MAX);
}

#[test]
fn config_refuses_invalid_user_id() {
    let date = "2023-04-06T00:00:00-05:00";
    let zone = || "America/Chicago".to_string();
    for id in ["", "sam", "-1", "18446744073709551616", "<@12\u{e9}", "\u{e9}", "<@!1a>"] {
        let config = config_from_values(id, "sam".to_string(), zone(), date, 0, 0);
        assert_eq!(config.err(), Some(ConfigError::InvalidUserId), "{}", id);
    }
    let config = config_from_values("x", "sam".to_string(), "nowhere".to_string(), "never", 99, 99);
    assert_eq!(config.err(), Some(ConfigError::InvalidUserId));
}

#[test]
fn config_refuses_unknown_timezone() {
    let config = config_from_values(
        "7",
        "sam".to_string(),
        "Mars/Olympus".to_string(),
        "2023-04-06T00:00:00-05:00",
        9,
        17,
    );
    assert_eq!(config.err(), Some(ConfigError::InvalidTimezone));
}

#[test]
fn config_refuses_unreadable_date() {
    let config =
        config_from_values("7", "sam".to_string(), "Europe/Paris".to_string(), "2023-04-06", 9, 17);
    assert_eq!(config.err(), Some(ConfigError::InvalidSobrietyDate));
}

#[test]
fn config_checks_timezone_before_date() {
    let config = config_from_values("7", "sam".to_string(), "nowhere".to_string(), "never", 24, 24);
    assert_eq!(config.err(), Some(ConfigError::InvalidTimezone));
}

#[test]
fn new_support_net_is_idle() {
    let support_net = setup_test_support_net(None);
    assert_eq!(support_net.user_id, 42);
    assert_eq!(support_net.conversation.conversation_state.phase(), Phase::Idle);
    assert_eq!(support_net.conversation.conversation_state.timeout_counter(), 0);
    assert_eq!(support_net.conversation.conversation_state.timeout_limit(), 1);
    assert_eq!(support_net.conversation.conversation_state.current_interval(), 9000);
    assert!(support_net.conversation.conversation_state.history().is_empty());
}

#[test]
fn prompt_is_exact() {
    let support_net = setup_test_support_net(None);
    let expected = format!(
        "Based on the user's sobriety duration ({} days) and mood, determine an appropriate check-in timer for {} in addiction recovery. {}{}",
        89, "test_user", EARLY_SOBRIETY_GUIDELINES, INTERVAL_FORMAT_REQUEST
    );
    assert_eq!(support_net.get_check_in_time_prompt(89), expected);
    assert!(support_net.get_check_in_time_prompt(90).contains(MID_TERM_SOBRIETY_GUIDELINES));
    assert!(support_net.get_check_in_time_prompt(364).contains(MID_TERM_SOBRIETY_GUIDELINES));
    assert!(support_net.get_check_in_time_prompt(365).contains(LONG_TERM_SOBRIETY_GUIDELINES));
    assert!(support_net.get_check_in_time_prompt(-3).starts_with(
        "Based on the user's sobriety duration (-3 days)"
    ));
}

#[test]
fn message_of_bot_is_ignored() {
    let mut support_net = setup_test_support_net(None);
    assert_eq!(support_net.handle_message(message(42, true, true, "hello")), MessageAction::Ignored);
    assert_eq!(support_net.conversation.conversation_state.phase(), Phase::Idle);
}

#[test]
fn message_outside_direct_channel_is_ignored() {
    let mut support_net = setup_test_support_net(None);
    assert_eq!(
        support_net.handle_message(message(42, false, false, "!end")),
        MessageAction::Ignored
    );
    assert_eq!(support_net.conversation.conversation_state.phase(), Phase::Idle);
}

#[test]
fn message_of_stranger_is_ignored() {
    let mut support_net = setup_test_support_net(None);
    assert_eq!(
        support_net.handle_message(message(43, false, true, "hello")),
        MessageAction::Ignored
    );
    assert!(support_net.conversation.conversation_state.history().is_empty());
}

#[test]
fn end_command_is_recognised() {
    let mut support_net = setup_test_support_net(None);
    support_net.start_conversation();
    assert_eq!(
        support_net.handle_message(message(42, false, true, "!end now")),
        MessageAction::EndConversation
    );
    assert_eq!(
        support_net.handle_message(message(43, false, true, "!end")),
        MessageAction::AcknowledgeEnd
    );
    assert_eq!(support_net.conversation.conversation_state.phase(), Phase::Active);
    assert_eq!(
        support_net.handle_message(message(42, false, true, "!en")),
        MessageAction::Recorded
    );
    assert_eq!(
        support_net.handle_message(message(42, false, true, " !end")),
        MessageAction::Recorded
    );
    assert_eq!(CONVERSATION_ENDED_REPLY, "Conversation ended. We'll check in with you later.");
}

#[test]
fn message_of_user_opens_conversation() {
    let mut support_net = setup_test_support_net(None);
    assert_eq!(
        support_net.handle_message(message(42, false, true, "hello")),
        MessageAction::Recorded
    );
    assert_eq!(support_net.conversation.conversation_state.phase(), Phase::Active);
    assert_eq!(support_net.conversation.conversation_state.timeout_counter(), 0);
    let history = support_net.conversation.conversation_state.history();
    assert_eq!(history.len(), 1);
    assert_eq!(history[0].role, Role::User);
    assert_eq!(history[0].content, "hello");
    assert_eq!(history[0].timestamp, 1_700_000_000);
}

#[test]
fn reset_timeout_counter_keeps_conversation() {
    let mut support_net = setup_test_support_net(None);
    support_net.conversation.conversation_state = ConversationState::with_timeout_limit(3);
    support_net.handle_message(message(42, false, true, "hello"));
    support_net.conversation.conversation_state.on_tick(None);
    assert_eq!(support_net.conversation.conversation_state.timeout_counter(), 1);
    support_net.reset_timeout_counter();
    assert_eq!(support_net.conversation.conversation_state.timeout_counter(), 0);
    assert_eq!(support_net.conversation.conversation_state.phase(), Phase::Active);
    assert_eq!(support_net.conversation.conversation_state.history().len(), 1);
}

#[test]
fn user_current_time_is_exact() {
    let support_net = setup_test_support_net(None);
    let at = chicago(2023, 4, 17, 7, 5) + 9;
    assert_eq!(support_net.get_user_current_time(at), Some("07:05:09".to_string()));
    assert_eq!(support_net.get_user_current_time(i64::MAX), None);
    let mut lost = setup_test_support_net(None);
    lost.user_timezone = "Nowhere/Land".to_string();
    assert_eq!(lost.get_user_current_time(at), None);
}

#[test]
fn config_refuses_contact_hours_beyond_the_day() {
    let date = "2023-04-06T00:00:00-05:00";
    let zone = || "America/Chicago".to_string();
    let config = config_from_values("7", "sam".to_string(), zone(), date, 24, 7);
    assert_eq!(config.err(), Some(ConfigError::InvalidContactHours));
    let config = config_from_values("7", "sam".to_string(), zone(), date, 7, 24);
    assert_eq!(config.err(), Some(ConfigError::InvalidContactHours));
    let config = config_from_values("7", "sam".to_string(), zone(), "yesterday", 7, 24);
    assert_eq!(config.err(), Some(ConfigError::InvalidSobrietyDate));
    let config = config_from_values("7", "sam".to_string(), zone(), date, 23, 0);
    assert_eq!(config.unwrap().contact_window, QuietWindow::new(23, 0));
}

#[test]
fn new_support_net_takes_window_and_start() {
    let config = config_from_values(
        "7",
        "sam".to_string(),
        "Europe/Paris".to_string(),
        "2023-04-06T00:00:00+02:00",
        8,
        20,
    )
    .unwrap();
    let support_net = SupportNET::new(config, 1234);
    assert_eq!(support_net.conversation.window, QuietWindow::new(8, 20));
    assert_eq!(support_net.conversation.last_check_in, 1234);
    assert_eq!(support_net.user_sobriety_date, 1680732000);
    assert_eq!(support_net.user_timezone, "Europe/Paris");
}

#[test]
fn support_net_tick_follows_the_users_clock() {
    // Contact is permitted from 9 to 17 in Chicago.
    let mut support_net = setup_test_support_net(None);
    let morning = chicago(2023, 4, 17, 8, 59);
    let day = chicago(2023, 4, 17, 9, 0);
    assert_eq!(
        support_net.tick(morning, None),
        Some(TickOutcome { action: TickAction::Deferred, conversation_ended: false })
    );
    assert_eq!(
        support_net.tick(day, None),
        Some(TickOutcome { action: TickAction::SendCheckIn, conversation_ended: false })
    );
    support_net.check_in_sent(day);
    assert_eq!(support_net.conversation.last_check_in, day);
    assert_eq!(support_net.conversation.conversation_state.phase(), Phase::Active);
    assert!(support_net.wants_recommendation(day + 60));
    assert!(!support_net.wants_recommendation(day + 9 * 3600));
    assert_eq!(
        support_net.tick(day + 60, Some("1h")),
        Some(TickOutcome { action: TickAction::Wait, conversation_ended: true })
    );
    assert_eq!(support_net.conversation.conversation_state.current_interval(), 3600);
    assert_eq!(
        support_net.tick(day + 3600, None),
        Some(TickOutcome { action: TickAction::SendCheckIn, conversation_ended: false })
    );
    // At 17 o'clock the window has closed.
    assert_eq!(
        support_net.tick(day + 8 * 3600, None),
        Some(TickOutcome { action: TickAction::Deferred, conversation_ended: false })
    );
}

#[test]
fn support_net_tick_without_a_clock_changes_nothing() {
    let mut support_net = setup_test_support_net(None);
    support_net.start_conversation();
    assert_eq!(support_net.tick(i64::MAX, Some("1h")), None);
    assert!(!support_net.wants_recommendation(i64::MAX));
    support_net.user_timezone = "Nowhere/Land".to_string();
    assert_eq!(support_net.tick(chicago(2023, 4, 17, 12, 0), Some("1h")), None);
    assert_eq!(support_net.conversation.conversation_state.phase(), Phase::Active);
    assert_eq!(support_net.conversation.conversation_state.timeout_counter(), 0);
    assert_eq!(support_net.conversation.conversation_state.current_interval(), 9000);
}

#[test]
fn message_before_tick_defers_the_timeout() {
    let mut support_net = setup_test_support_net(None);
    support_net.conversation.conversation_state = ConversationState::with_timeout_limit(2);
    let noon = chicago(2023, 4, 17, 12, 0);
    support_net.check_in_sent(noon);
    assert_eq!(support_net.tick(noon + 60, None).unwrap().conversation_ended, false);
    support_net.handle_message(message(42, false, true, "still here"));
    assert_eq!(support_net.tick(noon + 120, None).unwrap().conversation_ended, false);
    assert_eq!(support_net.tick(noon + 180, None).unwrap().conversation_ended, true);
}

#[test]
fn assemble_config_checks_in_order() {
    let name = || "sam".to_string();
    let zone = || "Europe/Paris".to_string();
    assert_eq!(
        assemble_config(None, name(), zone(), false, None, 30, 30).err(),
        Some(ConfigError::InvalidUserId)
    );
    assert_eq!(
        assemble_config(Some(1), name(), zone(), false, None, 30, 30).err(),
        Some(ConfigError::InvalidTimezone)
    );
    assert_eq!(
        assemble_config(Some(1), name(), zone(), true, None, 30, 30).err(),
        Some(ConfigError::InvalidSobrietyDate)
    );
    assert_eq!(
        assemble_config(Some(1), name(), zone(), true, Some(5), 30, 3).err(),
        Some(ConfigError::InvalidContactHours)
    );
    assert_eq!(
        assemble_config(Some(1), name(), zone(), true, Some(5), 3, 30).err(),
        Some(ConfigError::InvalidContactHours)
    );
    let config = assemble_config(Some(1), name(), zone(), true, Some(5), 0, 23).unwrap();
    assert_eq!(config.user_id, 1);
    assert_eq!(config.user_name, "sam");
    assert_eq!(config.user_timezone, "Europe/Paris");
    assert_eq!(config.user_sobriety_date, 5);
    assert_eq!(config.contact_window, QuietWindow::new(0, 23));
}
