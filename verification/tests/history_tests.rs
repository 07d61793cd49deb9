use fizz::MAX_HISTORY_MESSAGES;
use fizz::history::{HistoryMessageKind, TurnState};
use fizz::message::Message;

fn test_system_messages() -> Vec<Message> {
    vec![
        Message::system("sys".to_string()),
        Message::system("tools".to_string()),
    ]
}

fn test_state() -> TurnState {
    TurnState::from_system_messages(test_system_messages())
}

#[test]
fn trim_history_preserves_turn_boundaries() {
    let mut state = test_state();

    for i in 0..25 {
        state.push_user_input(format!("user-{i}"));
        state.push_assistant(format!("assistant-{i}"));
    }

    assert!(state.history.len() <= MAX_HISTORY_MESSAGES);
    assert_eq!(state.history[0].content, "sys");
    assert_eq!(state.history[1].content, "tools");
    assert_eq!(state.history_kinds[2], HistoryMessageKind::UserInput);
}

#[test]
fn trim_history_skips_tool_result_messages_as_turn_starts() {
    let mut state = test_state();

    state.push_user_input("q0".to_string());
    state.push_assistant(r#"{"tool_call":{"name":"time.now"}}"#.to_string());
    state.push_tool_result("time.now", "one");
    state.push_assistant(r#"{"tool_call":{"name":"time.now"}}"#.to_string());
    state.push_tool_result("time.now", "two");
    state.push_assistant("done".to_string());

    for i in 1..=17 {
        state.push_user_input(format!("q{i}"));
        state.push_assistant(format!("a{i}"));
    }

    assert!(state.history.len() <= MAX_HISTORY_MESSAGES);
    assert_eq!(state.history_kinds[2], HistoryMessageKind::UserInput);
    assert_eq!(state.history[2].content, "q1");
}

#[test]
fn trim_history_drops_non_system_when_no_complete_turn_fits() {
    let mut state = test_state();

    state.push_user_input("q0".to_string());
    for i in 0..25 {
        state.push_assistant(r#"{"tool_call":{"name":"time.now"}}"#.to_string());
        state.push_tool_result("time.now", &i.to_string());
    }

    state.trim_history();

    assert!(state.history.len() <= MAX_HISTORY_MESSAGES);
    assert_eq!(state.history[0].content, "sys");
    assert_eq!(state.history[1].content, "tools");
    assert!(
        state.history_kinds[state.system_len..]
            .iter()
            .all(|kind| *kind != HistoryMessageKind::UserInput)
    );
}

#[test]
fn trim_drops_everything_but_system_prefix_when_window_has_no_user_input() {
    let mut history = test_system_messages();
    let mut kinds = vec![HistoryMessageKind::System, HistoryMessageKind::System];

    history.push(Message::user("q0".to_string()));
    kinds.push(HistoryMessageKind::UserInput);
    for i in 0..25 {
        history.push(Message::assistant(r#"{"tool_call":{"name":"time.now"}}"#.to_string()));
        kinds.push(HistoryMessageKind::Assistant);
        history.push(Message::user(format!("Tool 'time.now' result: {i}")));
        kinds.push(HistoryMessageKind::ToolResult);
    }

    fizz::history::trim_history_messages(&mut history, &mut kinds, 2);

    assert_eq!(history.len(), 2);
    assert_eq!(kinds.len(), 2);
    assert_eq!(history[0].content, "sys");
    assert_eq!(history[1].content, "tools");
}

#[test]
fn reset_restores_post_construction_buffer() {
    let mut state = test_state();
    let fresh = test_state();

    state.push_user_input("hello".to_string());
    state.push_assistant("hi".to_string());
    state.reset();

    assert_eq!(state.history.len(), fresh.history.len());
    for (a, b) in state.history.iter().zip(fresh.history.iter()) {
        assert_eq!(a.content, b.content);
        assert_eq!(a.role.as_str(), b.role.as_str());
    }
    assert_eq!(state.history_kinds, fresh.history_kinds);
    assert_eq!(state.system_len, fresh.system_len);
}

#[test]
fn reset_twice_equals_reset_once() {
    let mut state = test_state();
    state.push_user_input("hello".to_string());
    state.reset();
    let after_once: Vec<String> = state.history.iter().map(|m| m.content.clone()).collect();
    state.reset();
    let after_twice: Vec<String> = state.history.iter().map(|m| m.content.clone()).collect();
    assert_eq!(after_once, after_twice);
}

#[test]
fn system_prefix_survives_many_pushes() {
    let mut state = test_state();
    for i in 0..100 {
        state.push_user_input(format!("u{i}"));
        state.push_assistant(format!("a{i}"));
        assert_eq!(state.history[0].content, "sys");
        assert_eq!(state.history[1].content, "tools");
        assert_eq!(state.history[0].role.as_str(), "system");
        assert!(state.history.len() <= MAX_HISTORY_MESSAGES);
    }
}

#[test]
fn push_within_capacity_keeps_every_entry() {
    let mut state = test_state();
    for i in 0..19 {
        state.push_user_input(format!("u{i}"));
        state.push_assistant(format!("a{i}"));
    }
    assert_eq!(state.history.len(), 40);
    assert_eq!(state.history[2].content, "u0");
    assert_eq!(state.history[39].content, "a18");
}

#[test]
fn tool_result_entries_are_tagged_and_worded() {
    let mut state = test_state();
    state.push_tool_result("time.now", "out");
    let last = state.history.last().expect("entry should exist");
    assert_eq!(last.content, "Tool 'time.now' result: out");
    assert_eq!(last.role.as_str(), "user");
    assert_eq!(
        *state.history_kinds.last().expect("kind should exist"),
        HistoryMessageKind::ToolResult
    );
}
