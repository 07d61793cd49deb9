//! The decisions of the interactive shell: what one input line asks for,
//! and how a history entry is printed. The line reading and printing live
//! with the host program.

use vstd::prelude::*;
use vstd::string::StringExecFns;

use crate::message::Message;
use crate::text::chars_eq;
use crate::text::chars_string;
use crate::text::dec_digits;
use crate::text::lower_ascii;
use crate::text::lower_chars;
use crate::text::str_chars;
use crate::text::trim_chars;
use crate::text::trim_spec;
use crate::text::u64_string;

verus! {

/// What one line of input asks the shell to do.
#[derive(Debug)]
pub enum ReplAction {
    Quit,
    Skip,
    Reset,
    ShowHistory,
    Prompt(String),
}

/// Reads one input line: blank lines are skipped; `exit` and `quit` (in
/// any case) end the session; `/reset` clears the conversation;
/// `/history` shows it; anything else is a prompt, taken trimmed.
pub fn repl_action(line: &str) -> (r: ReplAction)
    ensures
        trim_spec(line@).len() == 0 ==> r is Skip,
        trim_spec(line@).len() > 0 && (lower_ascii(trim_spec(line@)) == "exit"@ || lower_ascii(
            trim_spec(line@),
        ) == "quit"@) ==> r is Quit,
        trim_spec(line@).len() > 0 && lower_ascii(trim_spec(line@)) != "exit"@ && lower_ascii(
            trim_spec(line@),
        ) != "quit"@ && lower_ascii(trim_spec(line@)) == "/reset"@ ==> r is Reset,
        trim_spec(line@).len() > 0 && lower_ascii(trim_spec(line@)) != "exit"@ && lower_ascii(
            trim_spec(line@),
        ) != "quit"@ && lower_ascii(trim_spec(line@)) != "/reset"@ && lower_ascii(trim_spec(line@))
            == "/history"@ ==> r is ShowHistory,
        trim_spec(line@).len() > 0 && lower_ascii(trim_spec(line@)) != "exit"@ && lower_ascii(
            trim_spec(line@),
        ) != "quit"@ && lower_ascii(trim_spec(line@)) != "/reset"@ && lower_ascii(trim_spec(line@))
            != "/history"@ ==> (r matches ReplAction::Prompt(p) && p@ == trim_spec(line@)),
{
    let chars = str_chars(line);
    let trimmed = trim_chars(&chars);
    if trimmed.len() == 0 {
        return ReplAction::Skip;
    }
    let folded = lower_chars(&trimmed);
    if chars_eq(&folded, "exit") || chars_eq(&folded, "quit") {
        ReplAction::Quit
    } else if chars_eq(&folded, "/reset") {
        ReplAction::Reset
    } else if chars_eq(&folded, "/history") {
        ReplAction::ShowHistory
    } else {
        ReplAction::Prompt(chars_string(&trimmed))
    }
}

/// One printed history line: the entry's index, role and content.
pub open spec fn history_line_text(idx: nat, role: Seq<char>, content: Seq<char>) -> Seq<char> {
    "["@ + dec_digits(idx) + "] "@ + role + ": "@ + content
}

pub fn history_line(idx: u64, msg: &Message) -> (r: String)
    ensures
        r@ == history_line_text(idx as nat, msg.role.spec_str(), msg.content@),
{
    let mut r = String::from_str("[");
    let digits = u64_string(idx);
    r.append(digits.as_str());
    r.append("] ");
    r.append(msg.role.as_str());
    r.append(": ");
    r.append(msg.content.as_str());
    proof {
        assert(r@ =~= history_line_text(idx as nat, msg.role.spec_str(), msg.content@));
    }
    r
}

} // verus!
