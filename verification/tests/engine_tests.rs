use std::collections::VecDeque;

use fizz::MAX_TOOL_HOPS_PER_TURN;
use fizz::engine::{BackendError, ChatModel, TurnEngine};
use fizz::history::TurnState;
use fizz::message::Message;
use fizz::tools::{ToolCall, ToolExecutionResult, ToolOutput, ToolRunner};

struct StubModel {
    responses: VecDeque<String>,
    call_count: usize,
}

impl StubModel {
    fn new(responses: Vec<&str>) -> Self {
        Self {
            responses: responses.into_iter().map(str::to_string).collect(),
            call_count: 0,
        }
    }
}

impl ChatModel for StubModel {
    fn chat(&mut self, _messages: Vec<Message>) -> Result<String, BackendError> {
        self.call_count += 1;
        Ok(self
            .responses
            .pop_front()
            .expect("stub model missing queued response"))
    }
}

struct FailingModel;

impl ChatModel for FailingModel {
    fn chat(&mut self, _messages: Vec<Message>) -> Result<String, BackendError> {
        Err(BackendError::new("backend failure".to_string()))
    }
}

struct StubTools {
    calls: Vec<String>,
}

impl StubTools {
    fn new() -> Self {
        Self { calls: Vec::new() }
    }
}

impl ToolRunner for StubTools {
    fn execute(&mut self, call: &ToolCall) -> ToolExecutionResult {
        self.calls.push(call.name.clone());
        Ok(ToolOutput::new(format!("stub-result-for-{}", call.name)))
    }
}

fn test_system_messages() -> Vec<Message> {
    vec![
        Message::system("sys".to_string()),
        Message::system("tools".to_string()),
    ]
}

fn test_engine() -> TurnEngine {
    TurnEngine {
        state: TurnState::from_system_messages(test_system_messages()),
    }
}

#[test]
fn turn_engine_handles_plain_assistant_reply() {
    let mut engine = test_engine();
    let mut model = StubModel::new(vec!["plain answer"]);
    let mut tools = StubTools::new();

    let answer = engine
        .run_turn_with("hello", &mut model, &mut tools)
        .expect("turn should succeed");

    assert_eq!(answer, "plain answer");
    assert_eq!(model.call_count, 1);
    assert!(tools.calls.is_empty());
    assert_eq!(
        engine
            .history()
            .last()
            .expect("history should have reply")
            .content,
        answer
    );
}

#[test]
fn turn_engine_runs_single_tool_call_then_returns_final_answer() {
    let mut engine = test_engine();
    let mut model = StubModel::new(vec![
        r#"{"tool_call":{"name":"time.now"}}"#,
        "Here is the final answer.",
    ]);
    let mut tools = StubTools::new();

    let answer = engine
        .run_turn_with("what time?", &mut model, &mut tools)
        .expect("turn should succeed");

    assert_eq!(answer, "Here is the final answer.");
    assert_eq!(model.call_count, 2);
    assert_eq!(tools.calls.as_slice(), &["time.now".to_string()]);
    assert!(
        engine
            .history()
            .iter()
            .any(|msg| msg.content.starts_with("Tool 'time.now' result:")),
        "tool result should be recorded in history"
    );
}

#[test]
fn turn_engine_treats_malformed_tool_output_as_normal_reply() {
    let mut engine = test_engine();
    let mixed_output = "Let me check.\n{\"tool_call\":{\"name\":\"time.now\"}}";
    let mut model = StubModel::new(vec![mixed_output]);
    let mut tools = StubTools::new();

    let answer = engine
        .run_turn_with("what time now?", &mut model, &mut tools)
        .expect("turn should succeed");

    assert_eq!(answer, mixed_output);
    assert_eq!(model.call_count, 1);
    assert!(tools.calls.is_empty());
}

#[test]
fn turn_engine_stops_when_tool_hop_limit_is_reached() {
    let mut engine = test_engine();
    let mut model = StubModel::new(vec![
        r#"{"tool_call":{"name":"time.now"}}"#,
        r#"{"tool_call":{"name":"time.now"}}"#,
        r#"{"tool_call":{"name":"time.now"}}"#,
    ]);
    let mut tools = StubTools::new();

    let answer = engine
        .run_turn_with("keep checking", &mut model, &mut tools)
        .expect("turn should succeed");

    assert!(
        answer.contains(&format!(
            "I stopped after {} tool calls",
            MAX_TOOL_HOPS_PER_TURN
        )),
        "unexpected limit message: {answer}"
    );
    assert_eq!(model.call_count as u64, MAX_TOOL_HOPS_PER_TURN + 1);
    assert_eq!(tools.calls.len() as u64, MAX_TOOL_HOPS_PER_TURN);
    assert_eq!(
        engine
            .history()
            .last()
            .expect("history should include limit message")
            .content,
        answer
    );
}

#[test]
fn turn_engine_returns_exact_limit_message() {
    let mut engine = test_engine();
    let mut model = StubModel::new(vec![
        r#"{"tool_call":{"name":"time.now"}}"#,
        r#"{"tool_call":{"name":"time.now"}}"#,
        r#"{"tool_call":{"name":"time.now"}}"#,
    ]);
    let mut tools = StubTools::new();

    let answer = engine
        .run_turn_with("loop", &mut model, &mut tools)
        .expect("turn should succeed");

    assert_eq!(
        answer,
        "I stopped after 2 tool calls in one turn. Please try a simpler request."
    );
}

#[test]
fn turn_engine_folds_tool_failure_into_conversation() {
    let mut engine = test_engine();
    let mut model = StubModel::new(vec![r#"{"tool_call":{"name":"missing.tool"}}"#, "ok"]);
    let mut tools = fizz::tools::BuiltinRunner;

    let answer = engine
        .run_turn_with("try it", &mut model, &mut tools)
        .expect("turn should succeed despite the tool failure");

    assert_eq!(answer, "ok");
    assert!(
        engine.history().iter().any(|msg| msg
            .content
            .contains("Tool 'missing.tool' result: ERROR: unknown tool 'missing.tool'")),
        "tool failure should be fed back as conversation content"
    );
}

#[test]
fn turn_engine_propagates_backend_errors_and_keeps_history() {
    let mut engine = test_engine();
    let mut model = FailingModel;
    let mut tools = StubTools::new();

    let err = engine
        .run_turn_with("ping", &mut model, &mut tools)
        .expect_err("turn should fail on a backend error");

    assert_eq!(err.message(), "backend failure");
    assert_eq!(engine.history().len(), 3);
    assert_eq!(engine.history()[2].content, "ping");
    assert!(tools.calls.is_empty());
}

#[test]
fn agent_runs_turns_and_resets() {
    let mut vars: Vec<(String, String)> = Vec::new();
    vars.push(("SYSTEM_PROMPT".to_string(), "Be concise.".to_string()));
    let cfg = fizz::config::Config::from_env_with(&vars);
    let mut agent = fizz::engine::Agent::new(
        StubModel::new(vec!["first", "second"]),
        StubTools::new(),
        &cfg,
    );

    assert_eq!(agent.history().len(), 2);
    assert_eq!(agent.history()[0].content, "Be concise.");

    let answer = agent.run_turn("hi").expect("turn should succeed");
    assert_eq!(answer, "first");
    assert_eq!(agent.history().len(), 4);

    agent.reset();
    assert_eq!(agent.history().len(), 2);

    let answer = agent.run_turn("again").expect("turn should succeed");
    assert_eq!(answer, "second");
}

#[test]
fn agent_with_blank_system_prompt_keeps_only_instructions() {
    let mut vars: Vec<(String, String)> = Vec::new();
    vars.push(("SYSTEM_PROMPT".to_string(), "   ".to_string()));
    let cfg = fizz::config::Config::from_env_with(&vars);
    let agent = fizz::engine::Agent::new(StubModel::new(vec![]), StubTools::new(), &cfg);

    assert_eq!(agent.history().len(), 1);
    assert_eq!(
        agent.history()[0].content,
        fizz::tools::usage_instructions()
    );
    assert_eq!(agent.history()[0].role.as_str(), "system");
}
