//! Message assembly: the ordered, role-tagged entries that a question becomes.
//!
//! Every provider sends the same order: the system instructions, then each
//! earlier turn (the user's text before the assistant's, empty halves left
//! out), then the new prompt, where an empty prompt is sent as ".".
use vstd::prelude::*;
use crate::config::{AiPrompt, Question};

verus! {

/// Who speaks in an entry of the conversation.
#[derive(Debug, Clone, Copy, PartialEq, Eq, Structural)]
pub enum Role {
    System,
    User,
    Assistant,
}

/// The role's name on the wire.
pub open spec fn role_name(r: Role) -> Seq<char> {
    match r {
        Role::System => "system"@,
        Role::User => "user"@,
        Role::Assistant => "assistant"@,
    }
}

/// One role-tagged entry of the conversation.
#[derive(Debug, Clone)]
pub struct ChatEntry {
    pub role: Role,
    pub content: String,
}

impl View for ChatEntry {
    type V = (Role, Seq<char>);

    open spec fn view(&self) -> (Role, Seq<char>) {
        (self.role, self.content@)
    }
}

/// The views of a sequence of entries.
pub open spec fn entries_view(v: Seq<ChatEntry>) -> Seq<(Role, Seq<char>)> {
    v.map_values(|e: ChatEntry| e@)
}

/// The entries of one earlier turn: the user's text, then the assistant's,
/// each only when it is not empty.
pub open spec fn turn_entries(t: AiPrompt) -> Seq<(Role, Seq<char>)> {
    (if t.content@.len() > 0 {
        seq![(Role::User, t.content@)]
    } else {
        Seq::empty()
    }) + (if t.output@.len() > 0 {
        seq![(Role::Assistant, t.output@)]
    } else {
        Seq::empty()
    })
}

/// The entries of the earlier turns, turn by turn in their order.
pub open spec fn history_entries(h: Seq<AiPrompt>) -> Seq<(Role, Seq<char>)>
    decreases h.len(),
{
    if h.len() == 0 {
        Seq::empty()
    } else {
        history_entries(h.drop_last()) + turn_entries(h.last())
    }
}

/// The text sent for the new prompt: the prompt itself, or "." when it is empty.
pub open spec fn prompt_text(p: Seq<char>) -> Seq<char> {
    if p.len() == 0 {
        seq!['.']
    } else {
        p
    }
}

/// The entries that follow the system instructions: the earlier turns, then the new prompt.
pub open spec fn dialogue(q: Question) -> Seq<(Role, Seq<char>)> {
    history_entries(q.history()) + seq![(Role::User, prompt_text(q.new_prompt@))]
}

/// The whole conversation: one system entry (empty when there are no
/// instructions), then the dialogue.
pub open spec fn conversation(q: Question) -> Seq<(Role, Seq<char>)> {
    seq![(Role::System, q.system_text())] + dialogue(q)
}

/// The text sent for the new prompt: the prompt, or "." in place of an empty one.
pub fn prompt_or_placeholder(prompt: &String) -> (r: String)
    ensures
        r@ == prompt_text(prompt@),
{
    if prompt.as_str().is_empty() {
        let r = String::from_str(".");
        proof {
            reveal_strlit(".");
        }
        r
    } else {
        prompt.clone()
    }
}

fn push_entry(entries: &mut Vec<ChatEntry>, role: Role, content: &String)
    ensures
        entries_view(final(entries)@) == entries_view(old(entries)@) + seq![(role, content@)],
{
    entries.push(ChatEntry { role, content: content.clone() });
    assert(entries_view(entries@) =~= entries_view(old(entries)@) + seq![(role, content@)]);
}

fn push_dialogue(entries: &mut Vec<ChatEntry>, question: &Question)
    ensures
        entries_view(final(entries)@) == entries_view(old(entries)@) + dialogue(*question),
{
    let ghost start = entries_view(entries@);
    match &question.messages {
        Some(turns) => {
            let n = turns.len();
            for i in 0..n
                invariant
                    n == turns@.len(),
                    entries_view(entries@) == start + history_entries(turns@.take(i as int)),
            {
                let turn = &turns[i];
                proof {
                    assert(turns@.take(i + 1).drop_last() =~= turns@.take(i as int));
                    assert(turns@.take(i + 1).last() == *turn);
                }
                if !turn.content.as_str().is_empty() {
                    push_entry(entries, Role::User, &turn.content);
                }
                if !turn.output.as_str().is_empty() {
                    push_entry(entries, Role::Assistant, &turn.output);
                }
                assert(entries_view(entries@) =~= start + history_entries(turns@.take(i + 1)));
            }
            assert(turns@.take(n as int) =~= turns@);
        },
        None => {
            assert(entries_view(entries@) =~= start + history_entries(question.history()));
        },
    }
    let prompt = prompt_or_placeholder(&question.new_prompt);
    push_entry(entries, Role::User, &prompt);
    assert(entries_view(entries@) =~= start + dialogue(*question));
}

/// The entries of the earlier turns followed by the new prompt; the system
/// instructions are not among them.
pub fn dialogue_entries(question: &Question) -> (r: Vec<ChatEntry>)
    ensures
        entries_view(r@) == dialogue(*question),
{
    let mut entries: Vec<ChatEntry> = Vec::new();
    assert(entries_view(entries@) =~= Seq::empty());
    push_dialogue(&mut entries, question);
    assert(entries_view(entries@) =~= dialogue(*question));
    entries
}

/// The whole conversation: the system entry, the earlier turns, the new prompt.
pub fn conversation_entries(question: &Question) -> (r: Vec<ChatEntry>)
    ensures
        entries_view(r@) == conversation(*question),
{
    let system = match &question.system_prompt {
        Some(s) => s.clone(),
        None => String::new(),
    };
    let mut entries: Vec<ChatEntry> = Vec::new();
    assert(entries_view(entries@) =~= Seq::empty());
    push_entry(&mut entries, Role::System, &system);
    push_dialogue(&mut entries, question);
    entries
}

/// A question without earlier turns and with a non-empty prompt becomes exactly
/// two entries: the system entry (empty text when there are no instructions)
/// and the prompt as a user entry.
pub proof fn lemma_prompt_only(q: Question)
    requires
        q.messages is None,
        q.new_prompt@.len() > 0,
    ensures
        conversation(q).len() == 2,
        conversation(q)[0] == (Role::System, q.system_text()),
        conversation(q)[1] == (Role::User, q.new_prompt@),
{
    assert(history_entries(q.history()) =~= Seq::empty());
}

/// The earlier turns are assembled turn by turn: the entries of a history are
/// those of its first part followed by those of the rest.
pub proof fn lemma_history_concat(h1: Seq<AiPrompt>, h2: Seq<AiPrompt>)
    ensures
        history_entries(h1 + h2) == history_entries(h1) + history_entries(h2),
    decreases h2.len(),
{
    if h2.len() == 0 {
        assert(h1 + h2 =~= h1);
        assert(history_entries(h1) + history_entries(h2) =~= history_entries(h1));
    } else {
        lemma_history_concat(h1, h2.drop_last());
        assert((h1 + h2).drop_last() =~= h1 + h2.drop_last());
        assert(history_entries(h1) + history_entries(h2) =~= history_entries(h1)
            + history_entries(h2.drop_last()) + turn_entries(h2.last()));
    }
}

/// Where a history is `before`, then the turn `t`, then `after`, the entries of
/// `t` stand in place between those of `before` and those of `after`.
pub proof fn lemma_turn_in_place(before: Seq<AiPrompt>, t: AiPrompt, after: Seq<AiPrompt>)
    ensures
        history_entries(before + seq![t] + after) == history_entries(before) + turn_entries(t)
            + history_entries(after),
{
    lemma_history_concat(before + seq![t], after);
    assert((before + seq![t]).drop_last() =~= before);
}

/// A turn with both texts non-empty gives exactly two entries, the user's
/// before the assistant's.
pub proof fn lemma_full_turn(t: AiPrompt)
    requires
        t.content@.len() > 0,
        t.output@.len() > 0,
    ensures
        turn_entries(t) == seq![(Role::User, t.content@), (Role::Assistant, t.output@)],
{
    assert(turn_entries(t) =~= seq![(Role::User, t.content@), (Role::Assistant, t.output@)]);
}

/// A turn with an empty text gives one entry for the other text, and none
/// when both are empty: an empty half is never sent.
pub proof fn lemma_partial_turn(t: AiPrompt)
    requires
        t.content@.len() == 0 || t.output@.len() == 0,
    ensures
        t.content@.len() > 0 ==> turn_entries(t) == seq![(Role::User, t.content@)],
        t.output@.len() > 0 ==> turn_entries(t) == seq![(Role::Assistant, t.output@)],
        t.content@.len() == 0 && t.output@.len() == 0 ==> turn_entries(t).len() == 0,
{
    if t.content@.len() > 0 {
        assert(turn_entries(t) =~= seq![(Role::User, t.content@)]);
    }
    if t.output@.len() > 0 {
        assert(turn_entries(t) =~= seq![(Role::Assistant, t.output@)]);
    }
}

/// The last entry is always the new prompt as a user entry, never empty: an
/// empty prompt is sent as ".".
pub proof fn lemma_last_entry(q: Question)
    ensures
        conversation(q).last() == (Role::User, prompt_text(q.new_prompt@)),
        dialogue(q).last() == (Role::User, prompt_text(q.new_prompt@)),
        prompt_text(q.new_prompt@).len() > 0,
        q.new_prompt@.len() == 0 ==> prompt_text(q.new_prompt@) == seq!['.'],
{
}

} // verus!
