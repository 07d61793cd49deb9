//! The tool-call protocol: the structured envelope a model response may
//! carry, the built-in tool registry, and the rendering of tool results.

use vstd::prelude::*;
use vstd::string::StringExecFns;

use crate::envelope::envelope_name;
use crate::envelope::read_envelope;
use crate::text::chars_string;
use crate::text::contains_seq;
use crate::text::dec_digits;
use crate::text::has_prefix;
use crate::text::lemma_contains_left;
use crate::text::str_chars;
use crate::text::trim_chars;
use crate::text::trim_spec;
use crate::text::u64_string;

verus! {

/// One structured tool invocation read out of a model response.
#[derive(Debug)]
pub struct ToolCall {
    pub name: String,
}

/// The text a successful tool execution produced.
#[derive(Debug)]
pub struct ToolOutput {
    pub content: String,
}

impl ToolOutput {
    pub fn new(content: String) -> (r: ToolOutput)
        ensures
            r.content@ == content@,
    {
        ToolOutput { content }
    }
}

/// Why a tool execution failed; never fatal to the turn.
#[derive(Debug)]
pub struct ToolExecutionError {
    message: String,
}

impl ToolExecutionError {
    pub fn new(message: String) -> (r: ToolExecutionError)
        ensures
            r.spec_message() == message@,
    {
        ToolExecutionError { message }
    }

    /// The failure text, at the specification level.
    pub closed spec fn spec_message(self) -> Seq<char> {
        self.message@
    }

    pub fn message(&self) -> (r: &String)
        ensures
            r@ == self.spec_message(),
    {
        &self.message
    }
}

pub type ToolExecutionResult = Result<ToolOutput, ToolExecutionError>;

/// An executor of tool invocations. The built-in registry implements it;
/// tests substitute their own.
pub trait ToolRunner {
    fn execute(&mut self, call: &ToolCall) -> ToolExecutionResult;
}

/// The system message describing the available tools and the exact envelope
/// a model must emit to invoke one.
pub open spec fn usage_text() -> Seq<char> {
    "Tools are available.\nAvailable tools:\n- time.now: returns current UTC time and unix time in seconds.\nIf a tool is needed, reply with exactly this JSON object and nothing else:\n{\"tool_call\":{\"name\":\"time.now\"}}\nAfter receiving tool results, respond normally to the user."@
}

pub fn usage_instructions() -> (r: &'static str)
    ensures
        r@ == usage_text(),
{
    "Tools are available.\nAvailable tools:\n- time.now: returns current UTC time and unix time in seconds.\nIf a tool is needed, reply with exactly this JSON object and nothing else:\n{\"tool_call\":{\"name\":\"time.now\"}}\nAfter receiving tool results, respond normally to the user."
}

/// The tool invocation a model response denotes, if any: the whole trimmed
/// response must be an envelope whose name, trimmed, is non-empty.
pub open spec fn parse_tool_call_spec(text: Seq<char>) -> Option<Seq<char>> {
    match envelope_name(trim_spec(text)) {
        None => None,
        Some(raw) => {
            let name = trim_spec(raw);
            if name.len() == 0 {
                None
            } else {
                Some(name)
            }
        },
    }
}

/// Attempts to interpret the entire trimmed response as a tool-call
/// envelope. Anything else — plain prose, a malformed or embedded
/// structure, an unknown shape, a blank name — is no tool call.
pub fn parse_tool_call(text: &str) -> (r: Option<ToolCall>)
    ensures
        r is Some <==> parse_tool_call_spec(text@) is Some,
        r is Some ==> (r->0).name@ == parse_tool_call_spec(text@)->0,
{
    let chars = str_chars(text);
    let trimmed = trim_chars(&chars);
    match read_envelope(&trimmed) {
        None => None,
        Some(raw) => {
            let name = trim_chars(&raw);
            if name.len() == 0 {
                None
            } else {
                Some(ToolCall { name: chars_string(&name) })
            }
        },
    }
}

/// The error text reported for a tool name the registry does not know.
pub open spec fn unknown_tool_text(name: Seq<char>) -> Seq<char> {
    "unknown tool '"@ + name + "'"@
}

/// The runner of the built-in tools; its registry holds the single
/// current-time tool `time.now`.
#[derive(Clone, Copy, Debug, Default)]
pub struct BuiltinRunner;

/// Relies on `std::time::SystemTime::now` for the seconds since the Unix
/// epoch and on chrono's `DateTime::<Utc>::from` with `to_rfc3339_opts`
/// (second precision, `Z` suffix) for the readable stamp. Both depend on
/// the clock, so only the shape of the stamp is stated: RFC 3339 date and
/// time with a `T` separator and the `Z` suffix. Fails when the clock
/// reads before the epoch.
#[verifier::external_body]
fn current_time_parts() -> (r: Result<(u64, String), String>)
    ensures
        r is Ok ==> (r->Ok_0).1@.len() >= 2 && (r->Ok_0).1@.last() == 'Z' && contains_seq(
            (r->Ok_0).1@,
            "T"@,
        ),
{
    let now = std::time::SystemTime::now();
    match now.duration_since(std::time::UNIX_EPOCH) {
        Ok(d) => {
            let stamp = chrono::DateTime::<chrono::Utc>::from(now)
                .to_rfc3339_opts(chrono::SecondsFormat::Secs, true);
            Ok((d.as_secs(), stamp))
        }
        Err(err) => Err(format!("{err}")),
    }
}

impl BuiltinRunner {
    /// Dispatches one call by name. `time.now` reports the readable UTC
    /// stamp and the raw epoch seconds; every other name fails, naming the
    /// unrecognized tool. A failure of the clock itself is reported with
    /// the `time.now failed: ` prefix.
    pub fn run(&self, call: &ToolCall) -> (r: ToolExecutionResult)
        ensures
            call.name@ != "time.now"@ ==> (r is Err && (r->Err_0).spec_message()
                == unknown_tool_text(call.name@)),
            call.name@ == "time.now"@ && r is Err ==> has_prefix(
                (r->Err_0).spec_message(),
                "time.now failed: "@,
            ),
            call.name@ == "time.now"@ && r is Ok ==> contains_seq((r->Ok_0).content@, "T"@)
                && contains_seq((r->Ok_0).content@, "Z"@) && contains_seq(
                (r->Ok_0).content@,
                " (unix: "@,
            ) && (r->Ok_0).content@.len() >= 1 && (r->Ok_0).content@.last() == ')',
    {
        if call.name == String::from_str("time.now") {
            match current_time_parts() {
                Ok((secs, stamp)) => {
                    let ghost st = stamp@;
                    let mut out = stamp;
                    out.append(" (unix: ");
                    let digits = u64_string(secs);
                    out.append(digits.as_str());
                    out.append(")");
                    proof {
                        reveal_strlit("Z");
                        reveal_strlit(")");
                        let whole = st + " (unix: "@ + dec_digits(secs as nat) + ")"@;
                        assert(out@ =~= whole);
                        assert(contains_seq(st, "Z"@)) by {
                            assert(st.subrange(st.len() - 1, st.len() - 1 + "Z"@.len() as int)
                                =~= "Z"@);
                        }
                        lemma_contains_left(st, " (unix: "@, "T"@);
                        lemma_contains_left(st + " (unix: "@, dec_digits(secs as nat), "T"@);
                        lemma_contains_left(
                            st + " (unix: "@ + dec_digits(secs as nat),
                            ")"@,
                            "T"@,
                        );
                        lemma_contains_left(st, " (unix: "@, "Z"@);
                        lemma_contains_left(st + " (unix: "@, dec_digits(secs as nat), "Z"@);
                        lemma_contains_left(
                            st + " (unix: "@ + dec_digits(secs as nat),
                            ")"@,
                            "Z"@,
                        );
                        assert(contains_seq(st + " (unix: "@, " (unix: "@)) by {
                            assert((st + " (unix: "@).subrange(
                                st.len() as int,
                                st.len() + " (unix: "@.len() as int,
                            ) =~= " (unix: "@);
                        }
                        lemma_contains_left(st + " (unix: "@, dec_digits(secs as nat), " (unix: "@);
                        lemma_contains_left(
                            st + " (unix: "@ + dec_digits(secs as nat),
                            ")"@,
                            " (unix: "@,
                        );
                        assert(whole.last() == ')');
                    }
                    Ok(ToolOutput::new(out))
                },
                Err(msg) => {
                    let mut text = String::from_str("time.now failed: ");
                    text.append(msg.as_str());
                    proof {
                        assert(text@.subrange(0, "time.now failed: "@.len() as int)
                            =~= "time.now failed: "@);
                    }
                    Err(ToolExecutionError::new(text))
                },
            }
        } else {
            let mut text = String::from_str("unknown tool '");
            text.append(call.name.as_str());
            text.append("'");
            proof {
                assert(text@ =~= unknown_tool_text(call.name@));
            }
            Err(ToolExecutionError::new(text))
        }
    }
}

impl ToolRunner for BuiltinRunner {
    fn execute(&mut self, call: &ToolCall) -> ToolExecutionResult {
        self.run(call)
    }
}

/// The text of the user-role message that carries a tool result back to the
/// model.
pub open spec fn tool_result_text(name: Seq<char>, result: Seq<char>) -> Seq<char> {
    "Tool '"@ + name + "' result: "@ + result
}

pub fn format_tool_result_user_message(tool_name: &str, tool_result: &str) -> (r: String)
    ensures
        r@ == tool_result_text(tool_name@, tool_result@),
{
    let mut r = String::from_str("Tool '");
    r.append(tool_name);
    r.append("' result: ");
    r.append(tool_result);
    r
}

} // verus!

