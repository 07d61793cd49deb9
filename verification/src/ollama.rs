//! The compute half of the ollama chat provider: the request URL, the wire
//! shape of a message, and the text of a failed-status error. The network
//! call itself lives with the host program.

use vstd::prelude::*;
use vstd::string::StringExecFns;

use crate::message::Message;

verus! {

/// One role-tagged message as the ollama chat API spells it.
#[derive(Debug)]
pub struct ChatMessage {
    pub role: String,
    pub content: String,
}

/// `s` with every trailing `/` removed.
pub open spec fn strip_trailing_slashes(s: Seq<char>) -> Seq<char>
    decreases s.len(),
{
    if s.len() > 0 && s.last() == '/' {
        strip_trailing_slashes(s.drop_last())
    } else {
        s
    }
}

/// The chat endpoint under the configured base URL.
pub open spec fn chat_url_spec(base_url: Seq<char>) -> Seq<char> {
    strip_trailing_slashes(base_url) + "/api/chat"@
}

pub fn chat_url(base_url: &str) -> (r: String)
    ensures
        r@ == chat_url_spec(base_url@),
{
    let chars = crate::text::str_chars(base_url);
    let mut hi = chars.len();
    proof {
        assert(base_url@.subrange(0, base_url@.len() as int) =~= base_url@);
    }
    while hi > 0 && chars[hi - 1] == '/'
        invariant
            chars@ == base_url@,
            hi <= base_url@.len(),
            strip_trailing_slashes(base_url@) == strip_trailing_slashes(
                base_url@.subrange(0, hi as int),
            ),
        decreases hi,
    {
        proof {
            let p = base_url@.subrange(0, hi as int);
            assert(p.drop_last() =~= base_url@.subrange(0, hi - 1));
        }
        hi = hi - 1;
    }
    let mut kept: Vec<char> = Vec::new();
    let mut i: usize = 0;
    while i < hi
        invariant
            chars@ == base_url@,
            i <= hi <= base_url@.len(),
            kept@ == base_url@.subrange(0, i as int),
        decreases hi - i,
    {
        kept.push(chars[i]);
        i = i + 1;
        proof {
            assert(kept@ =~= base_url@.subrange(0, i as int));
        }
    }
    proof {
        let p = base_url@.subrange(0, hi as int);
        if hi > 0 {
            assert(!(p.last() == '/'));
        }
        assert(strip_trailing_slashes(base_url@) == p);
        assert(kept@ =~= p);
    }
    let mut r = crate::text::chars_string(&kept);
    r.append("/api/chat");
    r
}

/// The messages as the ollama wire format carries them: the role's wire
/// name with the unchanged content, in order.
pub fn to_ollama_messages(messages: &Vec<Message>) -> (r: Vec<ChatMessage>)
    ensures
        r@.len() == messages@.len(),
        forall|i: int|
            0 <= i < messages@.len() ==> (#[trigger] r@[i]).role@ == messages@[i].role.spec_str()
                && r@[i].content@ == messages@[i].content@,
{
    let mut r: Vec<ChatMessage> = Vec::new();
    let mut i: usize = 0;
    while i < messages.len()
        invariant
            i <= messages@.len(),
            r@.len() == i,
            forall|j: int|
                0 <= j < i ==> (#[trigger] r@[j]).role@ == messages@[j].role.spec_str()
                    && r@[j].content@ == messages@[j].content@,
        decreases messages@.len() - i,
    {
        let msg = &messages[i];
        r.push(
            ChatMessage {
                role: String::from_str(msg.role.as_str()),
                content: msg.content.clone(),
            },
        );
        i = i + 1;
    }
    r
}

/// The error text for a response with a non-success status.
pub open spec fn failed_status_text(status: Seq<char>, body: Seq<char>) -> Seq<char> {
    "Model request failed with status "@ + status + ": "@ + body
}

pub fn model_request_failed_message(status: &str, body: &str) -> (r: String)
    ensures
        r@ == failed_status_text(status@, body@),
{
    let mut r = String::from_str("Model request failed with status ");
    r.append(status);
    r.append(": ");
    r.append(body);
    proof {
        assert(r@ =~= failed_status_text(status@, body@));
    }
    r
}

} // verus!
