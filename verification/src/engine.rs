//! The turn engine: drives one user turn to completion, bounded in the
//! number of tool hops, against injected chat and tool capabilities.

use vstd::prelude::*;
use vstd::string::StringExecFns;

use crate::MAX_HISTORY_MESSAGES;
use crate::MAX_TOOL_HOPS_PER_TURN;
use crate::config::Config;
use crate::history::HistoryEntry;
use crate::history::HistoryMessageKind;
use crate::history::TurnState;
use crate::history::trimmed_entries;
use crate::message::Message;
use crate::message::MessageRole;
use crate::message::duplicate_messages;
use crate::text::dec_digits;
use crate::text::is_blank;
use crate::text::trim_spec;
use crate::text::u64_string;
use crate::tools::ToolCall;
use crate::tools::ToolExecutionResult;
use crate::tools::ToolRunner;
use crate::tools::parse_tool_call;
use crate::tools::parse_tool_call_spec;
use crate::tools::usage_instructions;
use crate::tools::usage_text;

verus! {

/// Why a model call failed; fatal to the current turn.
#[derive(Debug)]
pub struct BackendError {
    message: String,
}

impl BackendError {
    pub fn new(message: String) -> (r: BackendError)
        ensures
            r.spec_message() == message@,
    {
        BackendError { message }
    }

    /// The failure text, at the specification level.
    pub closed spec fn spec_message(self) -> Seq<char> {
        self.message@
    }

    pub fn message(&self) -> (r: &String)
        ensures
            r@ == self.spec_message(),
    {
        &self.message
    }
}

/// A model backend: turns an ordered message sequence into response text.
/// The live implementation speaks to the network; tests substitute their
/// own.
pub trait ChatModel {
    fn chat(&mut self, messages: Vec<Message>) -> Result<String, BackendError>;
}

/// The system messages a fresh conversation starts with: the configured
/// prompt, unless blank, followed by the tool usage instructions.
pub open spec fn system_entries_spec(system_prompt: Seq<char>) -> Seq<HistoryEntry> {
    let instructions = HistoryEntry {
        role: MessageRole::System,
        content: usage_text(),
        kind: HistoryMessageKind::System,
    };
    if trim_spec(system_prompt).len() > 0 {
        seq![
            HistoryEntry {
                role: MessageRole::System,
                content: system_prompt,
                kind: HistoryMessageKind::System,
            },
            instructions,
        ]
    } else {
        seq![instructions]
    }
}

/// The system messages for the configured prompt, in order.
pub fn build_system_messages(cfg: &Config) -> (r: Vec<Message>)
    ensures
        r@.len() == system_entries_spec(cfg.system_prompt@).len(),
        forall|i: int|
            0 <= i < r@.len() ==> (#[trigger] r@[i]).role == MessageRole::System && r@[i].content@
                == system_entries_spec(cfg.system_prompt@)[i].content,
{
    let mut messages: Vec<Message> = Vec::new();
    if !is_blank(cfg.system_prompt.as_str()) {
        messages.push(Message::system(cfg.system_prompt.clone()));
    }
    messages.push(Message::system(String::from_str(usage_instructions())));
    messages
}

impl TurnState {
    /// A fresh buffer holding the system messages for this configuration.
    pub fn new(cfg: &Config) -> (s: TurnState)
        ensures
            s.wf(),
            s.entries() == system_entries_spec(cfg.system_prompt@),
            s.system_len == system_entries_spec(cfg.system_prompt@).len(),
    {
        let s = TurnState::from_system_messages(build_system_messages(cfg));
        proof {
            assert(s.entries() =~= system_entries_spec(cfg.system_prompt@));
        }
        s
    }
}

/// What one model response leads to: a terminal reply, a tool invocation,
/// or the terminal hop-limit message.
#[derive(Debug)]
pub enum TurnAction {
    Reply(String),
    Invoke(ToolCall),
    HopLimit(String),
}

/// The fixed message returned when a turn exhausts its tool-hop budget.
pub open spec fn limit_text() -> Seq<char> {
    "I stopped after "@ + dec_digits(MAX_TOOL_HOPS_PER_TURN as nat)
        + " tool calls in one turn. Please try a simpler request."@
}

fn limit_message() -> (r: String)
    ensures
        r@ == limit_text(),
{
    let mut r = String::from_str("I stopped after ");
    let digits = u64_string(MAX_TOOL_HOPS_PER_TURN);
    r.append(digits.as_str());
    r.append(" tool calls in one turn. Please try a simpler request.");
    proof {
        assert(r@ =~= limit_text());
    }
    r
}

/// One transition of the turn state machine, given the current model
/// response and the number of tool hops already taken. A response carrying
/// no tool call is recorded and returned as the terminal reply; one
/// carrying a tool call is recorded, and either the invocation is handed
/// back, or — once the hop budget is spent — the fixed limit message is
/// recorded and returned as the terminal reply.
pub fn turn_step(state: &mut TurnState, response: String, hops: u64) -> (r: TurnAction)
    requires
        old(state).wf(),
    ensures
        final(state).wf(),
        final(state).system_len == old(state).system_len,
        final(state).system_prefix() == old(state).system_prefix(),
        old(state).system_len <= MAX_HISTORY_MESSAGES && old(state).entries().len()
            <= MAX_HISTORY_MESSAGES ==> final(state).entries().len() <= MAX_HISTORY_MESSAGES,
        parse_tool_call_spec(response@) is None ==> (r matches TurnAction::Reply(t) && t@
            == response@ && final(state).entries() == trimmed_entries(
            old(state).entries().push(
                (HistoryEntry {
                    role: MessageRole::Assistant,
                    content: response@,
                    kind: HistoryMessageKind::Assistant,
                }),
            ),
            old(state).system_len as int,
        )),
        parse_tool_call_spec(response@) is Some && hops < MAX_TOOL_HOPS_PER_TURN ==> (r matches
            TurnAction::Invoke(call) && call.name@ == parse_tool_call_spec(response@)->0
            && final(state).entries() == trimmed_entries(
            old(state).entries().push(
                (HistoryEntry {
                    role: MessageRole::Assistant,
                    content: response@,
                    kind: HistoryMessageKind::Assistant,
                }),
            ),
            old(state).system_len as int,
        )),
        parse_tool_call_spec(response@) is Some && hops >= MAX_TOOL_HOPS_PER_TURN ==> (r matches
            TurnAction::HopLimit(t) && t@ == limit_text()),
        r matches TurnAction::Reply(t) ==> (final(state).entries().len() == old(
            state,
        ).system_len || (final(state).entries().len() > old(state).system_len && final(state).entries().last() == (HistoryEntry {
            role: MessageRole::Assistant,
            content: t@,
            kind: HistoryMessageKind::Assistant,
        }))),
        r matches TurnAction::HopLimit(t) ==> t@ == limit_text() && (final(state).entries().len() == old(state).system_len || (final(state).entries().len() > old(
            state,
        ).system_len && final(state).entries().last() == (HistoryEntry {
            role: MessageRole::Assistant,
            content: limit_text(),
            kind: HistoryMessageKind::Assistant,
        }))),
{
    match parse_tool_call(response.as_str()) {
        None => {
            let text = response.clone();
            state.push_assistant(response);
            TurnAction::Reply(text)
        },
        Some(call) => {
            if hops >= MAX_TOOL_HOPS_PER_TURN {
                state.push_assistant(response);
                let msg = limit_message();
                let text = msg.clone();
                state.push_assistant(msg);
                TurnAction::HopLimit(text)
            } else {
                state.push_assistant(response);
                TurnAction::Invoke(call)
            }
        },
    }
}

/// The text fed back to the model for one tool outcome: the output itself,
/// or the failure rendered as an `ERROR: ` line.
pub open spec fn outcome_text(r: ToolExecutionResult) -> Seq<char> {
    match r {
        Ok(o) => o.content@,
        Err(e) => "ERROR: "@ + e.spec_message(),
    }
}

/// Renders a tool outcome; a failure becomes conversation content, never a
/// failure of the turn.
pub fn render_tool_outcome(r: ToolExecutionResult) -> (t: String)
    ensures
        t@ == outcome_text(r),
{
    match r {
        Ok(o) => o.content,
        Err(e) => {
            let mut t = String::from_str("ERROR: ");
            t.append(e.message().as_str());
            t
        },
    }
}

/// The engine of one conversation: holds the history buffer and drives
/// turns against injected capabilities.
pub struct TurnEngine {
    pub state: TurnState,
}

impl TurnEngine {
    pub fn new(cfg: &Config) -> (r: TurnEngine)
        ensures
            r.state.wf(),
            r.state.entries() == system_entries_spec(cfg.system_prompt@),
            r.state.system_len == system_entries_spec(cfg.system_prompt@).len(),
    {
        TurnEngine { state: TurnState::new(cfg) }
    }

    /// Truncates the conversation back to its system prefix.
    pub fn reset(&mut self)
        requires
            old(self).state.wf(),
        ensures
            final(self).state.wf(),
            final(self).state.system_len == old(self).state.system_len,
            final(self).state.entries() == old(self).state.system_prefix(),
    {
        self.state.reset();
    }

    /// The ordered message sequence of the conversation so far.
    pub fn history(&self) -> (r: &Vec<Message>)
        ensures
            r@ == self.state.history@,
    {
        self.state.history()
    }

    /// Runs one user turn to completion: records the input, queries the
    /// model, executes at most `MAX_TOOL_HOPS_PER_TURN` tool invocations —
    /// feeding each result back for a follow-up response — and returns the
    /// final assistant-visible text. Only a backend failure fails the
    /// turn; the history keeps everything recorded up to that point.
    pub fn run_turn_with<C: ChatModel, E: ToolRunner>(
        &mut self,
        user_input: &str,
        chat: &mut C,
        execute_tool: &mut E,
    ) -> (r: Result<String, BackendError>)
        requires
            old(self).state.wf(),
        ensures
            final(self).state.wf(),
            final(self).state.system_len == old(self).state.system_len,
            final(self).state.system_prefix() == old(self).state.system_prefix(),
            old(self).state.system_len <= MAX_HISTORY_MESSAGES && old(self).state.entries().len()
                <= MAX_HISTORY_MESSAGES ==> final(self).state.entries().len()
                <= MAX_HISTORY_MESSAGES,
            r matches Ok(text) ==> (final(self).state.entries().len() == old(
                self,
            ).state.system_len || (final(self).state.entries().len() > old(self).state.system_len
                && final(self).state.entries().last().kind is Assistant
                && final(self).state.entries().last().content == text@)),
    {
        self.state.push_user_input(String::from_str(user_input));
        let mut hops: u64 = 0;
        let mut response = match chat.chat(duplicate_messages(self.state.history())) {
            Ok(text) => text,
            Err(err) => {
                return Err(err);
            },
        };
        loop
            invariant
                self.state.wf(),
                self.state.system_len == old(self).state.system_len,
                self.state.system_prefix() == old(self).state.system_prefix(),
                old(self).state.system_len <= MAX_HISTORY_MESSAGES && old(
                    self,
                ).state.entries().len() <= MAX_HISTORY_MESSAGES ==> self.state.entries().len()
                    <= MAX_HISTORY_MESSAGES,
                hops <= MAX_TOOL_HOPS_PER_TURN,
            decreases MAX_TOOL_HOPS_PER_TURN - hops,
        {
            match turn_step(&mut self.state, response, hops) {
                TurnAction::Reply(text) => {
                    return Ok(text);
                },
                TurnAction::HopLimit(text) => {
                    return Ok(text);
                },
                TurnAction::Invoke(call) => {
                    let outcome = execute_tool.execute(&call);
                    let rendered = render_tool_outcome(outcome);
                    self.state.push_tool_result(call.name.as_str(), rendered.as_str());
                    hops = hops + 1;
                    response = match chat.chat(duplicate_messages(self.state.history())) {
                        Ok(text) => text,
                        Err(err) => {
                            return Err(err);
                        },
                    };
                },
            }
        }
    }
}

/// The user-facing conversation: the engine plus its injected chat and
/// tool capabilities, carried across turns.
pub struct Agent<C, E> {
    pub chat: C,
    pub tools: E,
    pub turn_engine: TurnEngine,
}

impl<C: ChatModel, E: ToolRunner> Agent<C, E> {
    pub fn new(chat: C, tools: E, cfg: &Config) -> (r: Agent<C, E>)
        ensures
            r.turn_engine.state.wf(),
            r.turn_engine.state.entries() == system_entries_spec(cfg.system_prompt@),
            r.turn_engine.state.system_len == system_entries_spec(cfg.system_prompt@).len(),
    {
        Agent { chat, tools, turn_engine: TurnEngine::new(cfg) }
    }

    /// Truncates the conversation back to its system prefix.
    pub fn reset(&mut self)
        requires
            old(self).turn_engine.state.wf(),
        ensures
            final(self).turn_engine.state.wf(),
            final(self).turn_engine.state.system_len == old(self).turn_engine.state.system_len,
            final(self).turn_engine.state.entries() == old(
                self,
            ).turn_engine.state.system_prefix(),
    {
        self.turn_engine.reset();
    }

    /// The ordered message sequence of the conversation so far.
    pub fn history(&self) -> (r: &Vec<Message>)
        ensures
            r@ == self.turn_engine.state.history@,
    {
        self.turn_engine.history()
    }

    /// Runs one user turn to completion.
    pub fn run_turn(&mut self, user_input: &str) -> (r: Result<String, BackendError>)
        requires
            old(self).turn_engine.state.wf(),
        ensures
            final(self).turn_engine.state.wf(),
            final(self).turn_engine.state.system_len == old(self).turn_engine.state.system_len,
            final(self).turn_engine.state.system_prefix() == old(
                self,
            ).turn_engine.state.system_prefix(),
            r matches Ok(text) ==> (final(self).turn_engine.state.entries().len() == old(
                self,
            ).turn_engine.state.system_len || (final(self).turn_engine.state.entries().len() > old(
                self,
            ).turn_engine.state.system_len
                && final(self).turn_engine.state.entries().last().kind is Assistant
                && final(self).turn_engine.state.entries().last().content == text@)),
    {
        self.turn_engine.run_turn_with(user_input, &mut self.chat, &mut self.tools)
    }
}

} // verus!
