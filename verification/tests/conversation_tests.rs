use support_net::conversation::{ChatTurn, ConversationState, Phase, Role};
use support_net::interval::IntervalError;

fn turn(content: &str) -> ChatTurn {
    ChatTurn { role: Role::User, content: content.to_string(), timestamp: 10 }
}

#[test]
fn default_state_is_idle_with_default_interval() {
    let state = ConversationState::default();
    assert_eq!(state.phase(), Phase::Idle);
    assert!(!state.in_conversation());
    assert_eq!(state.timeout_counter(), 0);
    assert_eq!(state.current_interval(), 150 * 60);
    assert_eq!(state.timeout_limit(), 1);
    assert!(state.history().is_empty());
    assert!(!state.timeout_imminent());
}

#[test]
fn inbound_messages_open_and_extend() {
    let mut state = ConversationState::with_timeout_limit(4);
    state.on_inbound_message(turn("one"));
    assert_eq!(state.phase(), Phase::Active);
    assert_eq!(state.timeout_counter(), 0);
    assert_eq!(state.history().len(), 1);

    state.on_tick(None);
    assert_eq!(state.timeout_counter(), 1);

    state.on_inbound_message(turn("two"));
    assert_eq!(state.phase(), Phase::Active);
    assert_eq!(state.timeout_counter(), 0);
    assert_eq!(state.history().len(), 2);
    assert_eq!(state.history()[0].content, "one");
    assert_eq!(state.history()[1].content, "two");
}

#[test]
fn end_conversation_always_leaves_idle() {
    let mut idle = ConversationState::default();
    assert_eq!(idle.end_conversation(None), None);
    assert_eq!(idle.phase(), Phase::Idle);
    assert_eq!(idle.timeout_counter(), 0);
    assert_eq!(idle.history().len(), 0);

    let mut active = ConversationState::with_timeout_limit(9);
    active.on_inbound_message(turn("a"));
    active.on_inbound_message(turn("b"));
    active.on_tick(None);
    active.on_tick(None);
    assert_eq!(active.end_conversation(None), None);
    assert_eq!(active.phase(), Phase::Idle);
    assert_eq!(active.timeout_counter(), 0);
    assert_eq!(active.history().len(), 0);
    assert_eq!(active.timeout_limit(), 9);
}

#[test]
fn end_conversation_takes_recommended_interval() {
    let mut state = ConversationState::default();
    state.start_conversation();
    assert_eq!(state.end_conversation(Some("1d 12h")), None);
    assert_eq!(state.current_interval(), 129600);
}

#[test]
fn end_conversation_keeps_interval_on_rejected_recommendation() {
    let mut state = ConversationState::default();
    state.start_conversation();
    assert_eq!(state.end_conversation(Some("2h")), None);
    assert_eq!(state.current_interval(), 7200);
    state.start_conversation();
    assert_eq!(
        state.end_conversation(Some("soon")),
        Some(IntervalError::InvalidIntervalFormat)
    );
    assert_eq!(state.current_interval(), 7200);
    assert_eq!(state.phase(), Phase::Idle);
    state.start_conversation();
    assert_eq!(
        state.end_conversation(Some("99999999999999999999w")),
        Some(IntervalError::IntervalTooLong)
    );
    assert_eq!(state.current_interval(), 7200);
}

#[test]
fn tick_ends_conversation_at_first_silence_by_default() {
    let mut state = ConversationState::default();
    state.on_inbound_message(turn("hi"));
    assert!(state.timeout_imminent());
    assert!(state.on_tick(Some("3h")));
    assert_eq!(state.phase(), Phase::Idle);
    assert_eq!(state.timeout_counter(), 0);
    assert!(state.history().is_empty());
    assert_eq!(state.current_interval(), 10800);
}

#[test]
fn tick_counts_up_to_the_limit() {
    let mut state = ConversationState::with_timeout_limit(3);
    state.start_conversation();
    assert!(!state.on_tick(Some("3h")));
    assert_eq!(state.timeout_counter(), 1);
    assert!(!state.timeout_imminent());
    assert!(!state.on_tick(Some("3h")));
    assert_eq!(state.timeout_counter(), 2);
    assert_eq!(state.current_interval(), 9000);
    assert!(state.timeout_imminent());
    assert!(state.on_tick(Some("3h")));
    assert_eq!(state.phase(), Phase::Idle);
    assert_eq!(state.timeout_counter(), 0);
    assert_eq!(state.current_interval(), 10800);
}

#[test]
fn tick_leaves_idle_state_alone() {
    let mut state = ConversationState::default();
    assert!(!state.on_tick(Some("3h")));
    assert_eq!(state.phase(), Phase::Idle);
    assert_eq!(state.timeout_counter(), 0);
    assert_eq!(state.current_interval(), 9000);
}

#[test]
fn limit_of_zero_ends_at_first_tick() {
    let mut state = ConversationState::with_timeout_limit(0);
    state.start_conversation();
    assert!(state.on_tick(None));
    assert_eq!(state.phase(), Phase::Idle);
}

#[test]
fn start_while_active_resets_counter_and_keeps_history() {
    let mut state = ConversationState::with_timeout_limit(5);
    state.on_inbound_message(turn("hi"));
    state.on_tick(None);
    state.on_tick(None);
    assert_eq!(state.timeout_counter(), 2);
    state.start_conversation();
    assert_eq!(state.phase(), Phase::Active);
    assert_eq!(state.timeout_counter(), 0);
    assert_eq!(state.history().len(), 1);
}

#[test]
fn reset_counter_on_idle_state_changes_nothing() {
    let mut state = ConversationState::default();
    state.reset_timeout_counter();
    assert_eq!(state.phase(), Phase::Idle);
    assert_eq!(state.timeout_counter(), 0);
}
