//! The role-tagged message exchanged with the model backend.

use vstd::prelude::*;

verus! {

/// The conversational role a message is attributed to.
#[derive(Clone, Copy, Debug, PartialEq, Eq, Structural)]
pub enum MessageRole {
    System,
    User,
    Assistant,
}

impl MessageRole {
    /// The wire name of the role, as the backend protocol spells it.
    pub fn as_str(&self) -> (r: &'static str)
        ensures
            r@ == self.spec_str(),
    {
        match self {
            MessageRole::System => "system",
            MessageRole::User => "user",
            MessageRole::Assistant => "assistant",
        }
    }

    /// The wire name of the role at the specification level.
    pub open spec fn spec_str(self) -> Seq<char> {
        match self {
            MessageRole::System => "system"@,
            MessageRole::User => "user"@,
            MessageRole::Assistant => "assistant"@,
        }
    }
}

/// One role-tagged piece of text; immutable once created.
#[derive(Debug)]
pub struct Message {
    pub role: MessageRole,
    pub content: String,
}

impl Message {
    /// A message carrying the system role.
    pub fn system(content: String) -> (r: Message)
        ensures
            r.role == MessageRole::System,
            r.content@ == content@,
    {
        Message { role: MessageRole::System, content }
    }

    /// A message carrying the user role.
    pub fn user(content: String) -> (r: Message)
        ensures
            r.role == MessageRole::User,
            r.content@ == content@,
    {
        Message { role: MessageRole::User, content }
    }

    /// A message carrying the assistant role.
    pub fn assistant(content: String) -> (r: Message)
        ensures
            r.role == MessageRole::Assistant,
            r.content@ == content@,
    {
        Message { role: MessageRole::Assistant, content }
    }

    /// An identical copy of the message.
    pub fn duplicate(&self) -> (r: Message)
        ensures
            r == *self,
    {
        Message { role: self.role, content: self.content.clone() }
    }
}

/// An identical copy of a message sequence, for handing a history snapshot
/// to the backend.
pub fn duplicate_messages(messages: &Vec<Message>) -> (r: Vec<Message>)
    ensures
        r@ == messages@,
{
    let mut out: Vec<Message> = Vec::new();
    let mut i: usize = 0;
    while i < messages.len()
        invariant
            i <= messages@.len(),
            out@ == messages@.subrange(0, i as int),
        decreases messages@.len() - i,
    {
        out.push(messages[i].duplicate());
        i = i + 1;
        proof {
            assert(out@ =~= messages@.subrange(0, i as int));
        }
    }
    proof {
        assert(out@ =~= messages@);
    }
    out
}

} // verus!
