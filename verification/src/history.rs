//! The bounded, turn-aligned conversation history.
//!
//! The buffer keeps an immutable system prefix and enforces a fixed capacity
//! after every append. When the capacity is exceeded, a suffix of whole turns
//! is retained: the kept window may only begin at a user-input entry, so a
//! turn is never split between its user input and its final assistant reply.

use vstd::prelude::*;

use crate::MAX_HISTORY_MESSAGES;
use crate::message::Message;
use crate::message::MessageRole;
use crate::tools::format_tool_result_user_message;
use crate::tools::tool_result_text;

verus! {

/// The semantic kind of a history entry; consulted only by the trimming
/// policy, never transmitted.
#[derive(Clone, Copy, Debug, PartialEq, Eq, Structural)]
pub enum HistoryMessageKind {
    System,
    UserInput,
    ToolResult,
    Assistant,
}

/// Whether an entry of this kind may begin a retained window.
pub fn is_user_turn_start(kind: HistoryMessageKind) -> (b: bool)
    ensures
        b == (kind is UserInput),
{
    matches!(kind, HistoryMessageKind::UserInput)
}

/// The mathematical image of one history entry: its role, its text and its
/// trimming kind.
pub ghost struct HistoryEntry {
    pub role: MessageRole,
    pub content: Seq<char>,
    pub kind: HistoryMessageKind,
}

/// The entry a message-and-kind pair denotes.
pub open spec fn entry_of(m: Message, kind: HistoryMessageKind) -> HistoryEntry {
    HistoryEntry { role: m.role, content: m.content@, kind }
}

/// The entries a parallel message and kind pair of sequences denotes.
pub open spec fn entries_of(h: Seq<Message>, k: Seq<HistoryMessageKind>) -> Seq<HistoryEntry> {
    Seq::new(h.len(), |i: int| entry_of(h[i], k[i]))
}

/// How many non-system entries the buffer may retain.
pub open spec fn keep_tail_spec(system_len: int) -> int {
    if MAX_HISTORY_MESSAGES >= system_len {
        MAX_HISTORY_MESSAGES - system_len
    } else {
        0
    }
}

/// The earliest index a retained suffix could start at while respecting both
/// the tail budget and the system prefix.
pub open spec fn min_start_spec(len: int, system_len: int) -> int {
    let base = if len >= keep_tail_spec(system_len) {
        len - keep_tail_spec(system_len)
    } else {
        0
    };
    if base >= system_len {
        base
    } else {
        system_len
    }
}

/// The first index at or after `i` whose kind is `UserInput`, or the length
/// if there is none.
pub open spec fn first_user_from(es: Seq<HistoryEntry>, i: int) -> int
    decreases es.len() - i,
{
    if i < 0 || i >= es.len() {
        es.len() as int
    } else if es[i].kind is UserInput {
        i
    } else {
        first_user_from(es, i + 1)
    }
}

pub proof fn lemma_first_user_from(es: Seq<HistoryEntry>, i: int)
    requires
        0 <= i <= es.len(),
    ensures
        i <= first_user_from(es, i) <= es.len(),
        first_user_from(es, i) < es.len() ==> es[first_user_from(es, i)].kind is UserInput,
        forall|j: int| i <= j < first_user_from(es, i) ==> !((#[trigger] es[j]).kind is UserInput),
    decreases es.len() - i,
{
    if i < es.len() && !(es[i].kind is UserInput) {
        lemma_first_user_from(es, i + 1);
    }
}

/// What the buffer holds after capacity enforcement: unchanged while within
/// capacity; otherwise the system prefix plus the suffix starting at the
/// first user-input entry in the allowed window, or the system prefix alone
/// when no such entry exists.
pub open spec fn trimmed_entries(es: Seq<HistoryEntry>, sl: int) -> Seq<HistoryEntry> {
    if es.len() <= MAX_HISTORY_MESSAGES {
        es
    } else {
        let st = first_user_from(es, min_start_spec(es.len() as int, sl));
        if st < es.len() {
            es.subrange(0, sl) + es.subrange(st, es.len() as int)
        } else {
            es.subrange(0, sl)
        }
    }
}

/// What capacity enforcement guarantees: the system prefix survives in
/// place, the capacity holds whenever the prefix fits it at all, the length
/// never grows, and a trimmed buffer resumes at a user input if it keeps
/// anything beyond the prefix.
pub proof fn lemma_trimmed_entries_props(es: Seq<HistoryEntry>, sl: int)
    requires
        0 <= sl <= es.len(),
    ensures
        sl <= trimmed_entries(es, sl).len() <= es.len(),
        trimmed_entries(es, sl).subrange(0, sl) == es.subrange(0, sl),
        es.len() > MAX_HISTORY_MESSAGES ==> (trimmed_entries(es, sl).len() == sl
            || trimmed_entries(es, sl)[sl].kind is UserInput),
        es.len() > MAX_HISTORY_MESSAGES && sl <= MAX_HISTORY_MESSAGES ==> trimmed_entries(
            es,
            sl,
        ).len() <= MAX_HISTORY_MESSAGES,
        es.len() <= MAX_HISTORY_MESSAGES ==> trimmed_entries(es, sl) == es,
        trimmed_entries(es, sl).len() > sl ==> trimmed_entries(es, sl).last() == es.last(),
{
    if es.len() > MAX_HISTORY_MESSAGES {
        let ms = min_start_spec(es.len() as int, sl);
        lemma_first_user_from(es, ms);
        let st = first_user_from(es, ms);
        if st < es.len() {
            assert(trimmed_entries(es, sl).subrange(0, sl) =~= es.subrange(0, sl));
        } else {
            assert(trimmed_entries(es, sl).subrange(0, sl) =~= es.subrange(0, sl));
        }
    } else {
        assert(trimmed_entries(es, sl).subrange(0, sl) =~= es.subrange(0, sl));
    }
}

/// Enforces the capacity bound on a history and its parallel kind tags,
/// keeping only whole turns after the immutable system prefix.
pub fn trim_history_messages(
    history: &mut Vec<Message>,
    history_kinds: &mut Vec<HistoryMessageKind>,
    system_len: usize,
)
    requires
        old(history)@.len() == old(history_kinds)@.len(),
        system_len <= old(history)@.len(),
    ensures
        final(history)@.len() == final(history_kinds)@.len(),
        entries_of(final(history)@, final(history_kinds)@) == trimmed_entries(
            entries_of(old(history)@, old(history_kinds)@),
            system_len as int,
        ),
{
    let ghost es = entries_of(history@, history_kinds@);
    if history.len() <= MAX_HISTORY_MESSAGES {
        return;
    }
    let len = history.len();
    let keep_tail = if MAX_HISTORY_MESSAGES >= system_len {
        MAX_HISTORY_MESSAGES - system_len
    } else {
        0
    };
    let base = if len >= keep_tail {
        len - keep_tail
    } else {
        0
    };
    let min_start = if base >= system_len {
        base
    } else {
        system_len
    };
    proof {
        assert(min_start as int == min_start_spec(es.len() as int, system_len as int));
    }
    let mut idx: usize = min_start;
    while idx < len && !is_user_turn_start(history_kinds[idx])
        invariant
            history@ == old(history)@,
            history_kinds@ == old(history_kinds)@,
            es == entries_of(history@, history_kinds@),
            len == es.len() == history_kinds@.len(),
            idx <= len,
            first_user_from(es, min_start_spec(es.len() as int, system_len as int))
                == first_user_from(es, idx as int),
        decreases len - idx,
    {
        proof {
            assert(es[idx as int].kind == history_kinds@[idx as int]);
            assert(first_user_from(es, idx as int) == first_user_from(es, idx + 1));
        }
        idx = idx + 1;
    }
    let ghost st = first_user_from(es, min_start_spec(es.len() as int, system_len as int));
    proof {
        if idx < len {
            assert(es[idx as int].kind == history_kinds@[idx as int]);
        }
        assert(st == idx as int);
    }
    let mut new_history: Vec<Message> = Vec::new();
    let mut new_kinds: Vec<HistoryMessageKind> = Vec::new();
    let mut i: usize = 0;
    while i < system_len
        invariant
            history@ == old(history)@,
            history_kinds@ == old(history_kinds)@,
            es == entries_of(history@, history_kinds@),
            i <= system_len <= history@.len() == history_kinds@.len(),
            new_history@ == history@.subrange(0, i as int),
            new_kinds@ == history_kinds@.subrange(0, i as int),
        decreases system_len - i,
    {
        new_history.push(history[i].duplicate());
        new_kinds.push(history_kinds[i]);
        i = i + 1;
        proof {
            assert(new_history@ =~= history@.subrange(0, i as int));
            assert(new_kinds@ =~= history_kinds@.subrange(0, i as int));
        }
    }
    if idx < len {
        let mut j: usize = idx;
        while j < len
            invariant
                history@ == old(history)@,
                history_kinds@ == old(history_kinds)@,
                es == entries_of(history@, history_kinds@),
                idx <= j <= len,
                system_len <= len,
                len == history@.len() == history_kinds@.len(),
                new_history@ == history@.subrange(0, system_len as int) + history@.subrange(
                    idx as int,
                    j as int,
                ),
                new_kinds@ == history_kinds@.subrange(0, system_len as int)
                    + history_kinds@.subrange(idx as int, j as int),
            decreases len - j,
        {
            new_history.push(history[j].duplicate());
            new_kinds.push(history_kinds[j]);
            j = j + 1;
            proof {
                assert(new_history@ =~= history@.subrange(0, system_len as int)
                    + history@.subrange(idx as int, j as int));
                assert(new_kinds@ =~= history_kinds@.subrange(0, system_len as int)
                    + history_kinds@.subrange(idx as int, j as int));
            }
        }
        proof {
            assert(entries_of(new_history@, new_kinds@) =~= es.subrange(0, system_len as int)
                + es.subrange(st, es.len() as int));
        }
    } else {
        proof {
            assert(entries_of(new_history@, new_kinds@) =~= es.subrange(0, system_len as int));
        }
    }
    *history = new_history;
    *history_kinds = new_kinds;
}

/// The ordered, capacity-bounded sequence of history entries of one
/// conversation, with its immutable system prefix.
pub struct TurnState {
    pub history: Vec<Message>,
    pub history_kinds: Vec<HistoryMessageKind>,
    pub system_len: usize,
}

impl TurnState {
    /// The entries the buffer currently holds.
    pub open spec fn entries(self) -> Seq<HistoryEntry> {
        entries_of(self.history@, self.history_kinds@)
    }

    /// The buffer is well formed: the kind tags run parallel to the
    /// messages and the system prefix is tagged as such.
    pub open spec fn wf(self) -> bool {
        &&& self.history@.len() == self.history_kinds@.len()
        &&& self.system_len <= self.history@.len()
        &&& forall|i: int|
            0 <= i < self.system_len ==> (#[trigger] self.history_kinds@[i]) is System
    }

    /// The immutable leading entries established at construction.
    pub open spec fn system_prefix(self) -> Seq<HistoryEntry> {
        self.entries().subrange(0, self.system_len as int)
    }

    /// A buffer holding exactly the given system messages.
    pub fn from_system_messages(system_messages: Vec<Message>) -> (s: TurnState)
        ensures
            s.wf(),
            s.system_len == system_messages@.len(),
            s.history@ == system_messages@,
            s.entries().len() == system_messages@.len(),
            forall|i: int|
                0 <= i < system_messages@.len() ==> (#[trigger] s.entries()[i]).kind is System
                    && s.entries()[i].role == system_messages@[i].role
                    && s.entries()[i].content == system_messages@[i].content@,
    {
        let system_len = system_messages.len();
        let mut history_kinds: Vec<HistoryMessageKind> = Vec::new();
        let mut i: usize = 0;
        while i < system_len
            invariant
                i <= system_len,
                history_kinds@.len() == i,
                forall|j: int| 0 <= j < i ==> (#[trigger] history_kinds@[j]) is System,
            decreases system_len - i,
        {
            history_kinds.push(HistoryMessageKind::System);
            i = i + 1;
        }
        TurnState { history: system_messages, history_kinds, system_len }
    }

    /// Truncates the buffer back to exactly the system prefix, yielding the
    /// buffer as it stood immediately after construction.
    pub fn reset(&mut self)
        requires
            old(self).wf(),
        ensures
            final(self).wf(),
            final(self).system_len == old(self).system_len,
            final(self).entries() == old(self).system_prefix(),
    {
        let sl = self.system_len;
        self.history.truncate(sl);
        self.history_kinds.truncate(sl);
        proof {
            assert(self.entries() =~= old(self).system_prefix());
        }
    }

    /// The ordered message sequence, for transmission to the backend.
    pub fn history(&self) -> (r: &Vec<Message>)
        ensures
            r@ == self.history@,
    {
        &self.history
    }

    /// Appends one entry, then enforces the capacity bound.
    pub fn push_message(&mut self, message: Message, kind: HistoryMessageKind)
        requires
            old(self).wf(),
        ensures
            final(self).wf(),
            final(self).system_len == old(self).system_len,
            final(self).entries() == trimmed_entries(
                old(self).entries().push(entry_of(message, kind)),
                old(self).system_len as int,
            ),
            final(self).system_prefix() == old(self).system_prefix(),
            old(self).system_len <= MAX_HISTORY_MESSAGES && old(self).entries().len()
                <= MAX_HISTORY_MESSAGES ==> final(self).entries().len() <= MAX_HISTORY_MESSAGES,
            final(self).entries().len() == old(self).system_len || (final(self).entries().len()
                > old(self).system_len && final(self).entries().last() == entry_of(message, kind)),
    {
        let ghost pushed = old(self).entries().push(entry_of(message, kind));
        self.history.push(message);
        self.history_kinds.push(kind);
        proof {
            assert(entries_of(self.history@, self.history_kinds@) =~= pushed);
        }
        let sl = self.system_len;
        trim_history_messages(&mut self.history, &mut self.history_kinds, sl);
        proof {
            lemma_trimmed_entries_props(pushed, sl as int);
            assert(pushed.subrange(0, sl as int) =~= old(self).system_prefix());
            assert(self.system_prefix() =~= trimmed_entries(pushed, sl as int).subrange(
                0,
                sl as int,
            ));
            assert forall|i: int|
                0 <= i < sl implies (#[trigger] self.history_kinds@[i]) is System by {
                assert(self.entries()[i] == pushed.subrange(0, sl as int)[i]);
                assert(old(self).entries()[i].kind == old(self).history_kinds@[i]);
            }
        }
    }

    /// Appends the user's raw input for this turn.
    pub fn push_user_input(&mut self, content: String)
        requires
            old(self).wf(),
        ensures
            final(self).wf(),
            final(self).system_len == old(self).system_len,
            final(self).entries() == trimmed_entries(
                old(self).entries().push(
                    (HistoryEntry {
                        role: MessageRole::User,
                        content: content@,
                        kind: HistoryMessageKind::UserInput,
                    }),
                ),
                old(self).system_len as int,
            ),
            final(self).system_prefix() == old(self).system_prefix(),
            old(self).system_len <= MAX_HISTORY_MESSAGES && old(self).entries().len()
                <= MAX_HISTORY_MESSAGES ==> final(self).entries().len() <= MAX_HISTORY_MESSAGES,
            final(self).entries().len() == old(self).system_len || (final(self).entries().len()
                > old(self).system_len && final(self).entries().last() == (HistoryEntry {
                    role: MessageRole::User,
                    content: content@,
                    kind: HistoryMessageKind::UserInput,
                })),
    {
        self.push_message(Message::user(content), HistoryMessageKind::UserInput);
    }

    /// Appends a rendered tool result, fed back under the user role.
    pub fn push_tool_result(&mut self, tool_name: &str, tool_result: &str)
        requires
            old(self).wf(),
        ensures
            final(self).wf(),
            final(self).system_len == old(self).system_len,
            final(self).entries() == trimmed_entries(
                old(self).entries().push(
                    (HistoryEntry {
                        role: MessageRole::User,
                        content: tool_result_text(tool_name@, tool_result@),
                        kind: HistoryMessageKind::ToolResult,
                    }),
                ),
                old(self).system_len as int,
            ),
            final(self).system_prefix() == old(self).system_prefix(),
            old(self).system_len <= MAX_HISTORY_MESSAGES && old(self).entries().len()
                <= MAX_HISTORY_MESSAGES ==> final(self).entries().len() <= MAX_HISTORY_MESSAGES,
            final(self).entries().len() == old(self).system_len || (final(self).entries().len()
                > old(self).system_len && final(self).entries().last() == (HistoryEntry {
                    role: MessageRole::User,
                    content: tool_result_text(tool_name@, tool_result@),
                    kind: HistoryMessageKind::ToolResult,
                })),
    {
        let content = format_tool_result_user_message(tool_name, tool_result);
        self.push_message(Message::user(content), HistoryMessageKind::ToolResult);
    }

    /// Appends a model reply.
    pub fn push_assistant(&mut self, content: String)
        requires
            old(self).wf(),
        ensures
            final(self).wf(),
            final(self).system_len == old(self).system_len,
            final(self).entries() == trimmed_entries(
                old(self).entries().push(
                    (HistoryEntry {
                        role: MessageRole::Assistant,
                        content: content@,
                        kind: HistoryMessageKind::Assistant,
                    }),
                ),
                old(self).system_len as int,
            ),
            final(self).system_prefix() == old(self).system_prefix(),
            old(self).system_len <= MAX_HISTORY_MESSAGES && old(self).entries().len()
                <= MAX_HISTORY_MESSAGES ==> final(self).entries().len() <= MAX_HISTORY_MESSAGES,
            final(self).entries().len() == old(self).system_len || (final(self).entries().len()
                > old(self).system_len && final(self).entries().last() == (HistoryEntry {
                    role: MessageRole::Assistant,
                    content: content@,
                    kind: HistoryMessageKind::Assistant,
                })),
    {
        self.push_message(Message::assistant(content), HistoryMessageKind::Assistant);
    }

    /// Enforces the capacity bound on the buffer.
    pub fn trim_history(&mut self)
        requires
            old(self).wf(),
        ensures
            final(self).wf(),
            final(self).system_len == old(self).system_len,
            final(self).entries() == trimmed_entries(
                old(self).entries(),
                old(self).system_len as int,
            ),
            final(self).system_prefix() == old(self).system_prefix(),
            old(self).system_len <= MAX_HISTORY_MESSAGES ==> final(self).entries().len()
                <= MAX_HISTORY_MESSAGES,
            old(self).entries().len() > MAX_HISTORY_MESSAGES ==> (final(self).entries().len()
                == old(self).system_len || final(self).entries()[old(
                self,
            ).system_len as int].kind is UserInput),
    {
        let sl = self.system_len;
        trim_history_messages(&mut self.history, &mut self.history_kinds, sl);
        proof {
            lemma_trimmed_entries_props(old(self).entries(), sl as int);
            assert(self.system_prefix() =~= old(self).system_prefix());
            assert forall|i: int|
                0 <= i < sl implies (#[trigger] self.history_kinds@[i]) is System by {
                assert(self.entries()[i] == old(self).entries().subrange(0, sl as int)[i]);
                assert(old(self).entries()[i].kind == old(self).history_kinds@[i]);
            }
        }
    }
}

} // verus!
