//! The simple run modes: a single agent, a swarm of agents with different
//! personas, and the interactive REPL.
//!
//! The application makes the model calls and prints; this module fixes what
//! is sent, how results are labelled and summarised, and how REPL input is read.

use vstd::prelude::*;
use crate::agent::is_text_message;
use crate::eval::byte_len;
use crate::llm::ChatMessage;
use crate::supervisor::joined;
use crate::text::{chars_of, decimal, push_chars, push_decimal, push_str, slice_range, string_from_chars, trim_chars, trim_seq};

verus! {

// ── Single agent ───────────────────────────────────────────────────────────

/// The messages a single agent starts with: its system prompt and a
/// greeting that waits for instructions.
pub fn single_agent_messages(system_prompt: &str) -> (ms: Vec<ChatMessage>)
    ensures
        ms@.len() == 2,
        is_text_message(ms@[0], "system"@, system_prompt@),
        is_text_message(ms@[1], "user"@, "Ready. Awaiting instructions."@),
{
    let mut ms: Vec<ChatMessage> = Vec::new();
    ms.push(ChatMessage::new("system", system_prompt));
    ms.push(ChatMessage::new("user", "Ready. Awaiting instructions."));
    ms
}

/// The first `n` characters of `s` (all of them when shorter).
pub open spec fn first_chars(s: Seq<char>, n: nat) -> Seq<char> {
    if s.len() <= n { s } else { s.take(n as int) }
}

/// The preview of a response broadcast to the mesh: its first 500 characters.
pub fn broadcast_preview(content: &str) -> (p: String)
    ensures
        p@ == first_chars(content@, 500),
{
    let c = chars_of(content);
    let n: usize = if c.len() <= 500 { c.len() } else { 500 };
    let t = slice_range(&c, 0, n);
    assert(t@ =~= first_chars(content@, 500));
    string_from_chars(&t)
}

// ── Swarm ──────────────────────────────────────────────────────────────────

/// The personas of the swarm agents, in order.
pub open spec fn swarm_persona(i: int) -> Seq<char> {
    if i == 1 {
        "You are a creative agent. Focus on innovation, alternatives, and possibilities."@
    } else if i == 2 {
        "You are a pragmatic agent. Focus on simplicity, efficiency, and practicality."@
    } else {
        "You are an analytical agent. Focus on logic, structure, and precision."@
    }
}

/// Agents a swarm runs at most.
pub const SWARM_SIZE: usize = 3;

/// The number of agents of a multi-model swarm with `clients` clients: one
/// per client, at most three.
pub fn swarm_agent_count(clients: usize) -> (n: usize)
    ensures
        n == (if clients < SWARM_SIZE { clients } else { SWARM_SIZE }),
{
    if clients < SWARM_SIZE { clients } else { SWARM_SIZE }
}

/// The persona of swarm agent `i` (the first persona past the third agent).
pub fn swarm_persona_text(i: usize) -> (p: &'static str)
    ensures
        p@ == swarm_persona(i as int),
{
    if i == 1 {
        "You are a creative agent. Focus on innovation, alternatives, and possibilities."
    } else if i == 2 {
        "You are a pragmatic agent. Focus on simplicity, efficiency, and practicality."
    } else {
        "You are an analytical agent. Focus on logic, structure, and precision."
    }
}

/// The task each swarm agent receives.
pub fn swarm_task() -> (t: &'static str)
    ensures
        t@ == "Analyze the given task and provide your solution."@,
{
    "Analyze the given task and provide your solution."
}

/// The text of `s` before its first `.` (all of it without one), as
/// `s.split('.').next()` returns it.
pub open spec fn before_dot(s: Seq<char>) -> Seq<char>
    decreases s.len(),
{
    if s.len() == 0 {
        s
    } else if s[0] == '.' {
        seq![]
    } else {
        seq![s[0]] + before_dot(s.skip(1))
    }
}

/// The label of a persona in the swarm report: its first sentence.
pub fn persona_label(persona: &str) -> (l: String)
    ensures
        l@ == before_dot(persona@),
{
    let c = chars_of(persona);
    let mut i: usize = 0;
    assert(c@.take(0) =~= Seq::<char>::empty());
    assert(c@.skip(0) =~= c@);
    while i < c.len() && c[i] != '.'
        invariant
            i <= c@.len(),
            forall|k: int| 0 <= k < i ==> c@[k] != '.',
            before_dot(c@) == c@.take(i as int) + before_dot(c@.skip(i as int)),
        decreases c@.len() - i,
    {
        proof {
            let rest = c@.skip(i as int);
            assert(rest[0] == c@[i as int]);
            assert(rest.skip(1) =~= c@.skip(i + 1));
            assert(c@.take(i + 1) =~= c@.take(i as int) + seq![c@[i as int]]);
        }
        i = i + 1;
    }
    proof {
        if i < c@.len() {
            assert(c@.skip(i as int)[0] == '.');
        } else {
            assert(c@.skip(i as int).len() == 0);
        }
    }
    let t = slice_range(&c, 0, i);
    assert(t@ =~= c@.take(i as int));
    assert(t@ =~= before_dot(persona@));
    string_from_chars(&t)
}

/// `Agent <index>: <bytes> chars` for one swarm result.
pub open spec fn result_note(index: nat, result: Seq<char>) -> Seq<char> {
    "Agent "@ + decimal(index) + ": "@ + decimal(byte_len(result)) + " chars"@
}

/// The notes of the swarm results, in order.
pub open spec fn result_notes(results: Seq<(usize, String)>) -> Seq<Seq<char>> {
    Seq::new(results.len(), |k: int| result_note(results[k].0 as nat, results[k].1@))
}

fn push_result_note(v: &mut Vec<char>, index: usize, result: &str)
    ensures
        final(v)@ == old(v)@ + result_note(index as nat, result@),
{
    let ghost start = v@;
    push_str(v, "Agent ");
    push_decimal(v, index as u64);
    push_str(v, ": ");
    push_decimal(v, result.len() as u64);
    push_str(v, " chars");
    assert(v@ =~= start + result_note(index as nat, result@));
}

/// Joining one more part extends the joined text.
proof fn lemma_joined_push(parts: Seq<Seq<char>>, k: int, sep: Seq<char>)
    requires
        0 <= k < parts.len(),
    ensures
        joined(parts.take(k + 1), sep) == if k == 0 {
            parts[0]
        } else {
            joined(parts.take(k), sep) + sep + parts[k]
        },
{
    let p = parts.take(k + 1);
    assert(p.drop_last() =~= parts.take(k));
    assert(p.last() == parts[k]);
    if k == 0 {
        assert(p.len() == 1);
    }
}

/// The summary of a single-provider swarm broadcast to the mesh.
pub fn swarm_summary(results: &[(usize, String)]) -> (s: String)
    ensures
        s@ == "Swarm completed: "@ + decimal(results@.len()) + " agents, results: "@ + joined(
            result_notes(results@),
            ", "@,
        ),
{
    let mut v: Vec<char> = Vec::new();
    push_str(&mut v, "Swarm completed: ");
    push_decimal(&mut v, results.len() as u64);
    push_str(&mut v, " agents, results: ");
    let ghost head = v@;
    let ghost notes = result_notes(results@);
    let mut i: usize = 0;
    assert(joined(notes.take(0), ", "@) =~= Seq::<char>::empty());
    assert(v@ =~= head + joined(notes.take(0), ", "@));
    while i < results.len()
        invariant
            i <= results@.len(),
            notes == result_notes(results@),
            notes.len() == results@.len(),
            v@ == head + joined(notes.take(i as int), ", "@),
        decreases results@.len() - i,
    {
        let ghost before = v@;
        if i > 0 {
            push_str(&mut v, ", ");
        }
        push_result_note(&mut v, results[i].0, results[i].1.as_str());
        proof {
            lemma_joined_push(notes, i as int, ", "@);
            assert(notes[i as int] == result_note(results@[i as int].0 as nat, results@[i as int].1@));
            assert(v@ =~= head + joined(notes.take(i + 1), ", "@));
        }
        i = i + 1;
    }
    proof {
        assert(notes.take(results@.len() as int) =~= notes);
    }
    string_from_chars(&v)
}

/// The summary of a multi-model swarm broadcast to the mesh.
pub fn multi_swarm_summary(agents: usize) -> (s: String)
    ensures
        s@ == "Multi-model swarm completed: "@ + decimal(agents as nat) + " agents"@,
{
    let mut v: Vec<char> = Vec::new();
    push_str(&mut v, "Multi-model swarm completed: ");
    push_decimal(&mut v, agents as u64);
    push_str(&mut v, " agents");
    string_from_chars(&v)
}

// ── REPL ───────────────────────────────────────────────────────────────────

/// What a line typed into the REPL asks for.
#[derive(Debug, Clone, PartialEq, Eq)]
pub enum ReplInput {
    /// Nothing (a blank line).
    Skip,
    /// Leave the REPL (`/exit` or `/quit`).
    Exit,
    /// Start a fresh conversation (`/reset`).
    Reset,
    /// Send this text to the model.
    Send(String),
}

/// Reads a REPL line: blank lines are skipped, `/exit`, `/quit` and
/// `/reset` are commands, anything else is sent, trimmed.
pub fn repl_input(line: &str) -> (r: ReplInput)
    ensures
        ({
            let t = trim_seq(line@);
            if t.len() == 0 {
                r == ReplInput::Skip
            } else if t == "/exit"@ || t == "/quit"@ {
                r == ReplInput::Exit
            } else if t == "/reset"@ {
                r == ReplInput::Reset
            } else {
                r matches ReplInput::Send(s) && s@ == t
            }
        }),
{
    let t = trim_chars(&chars_of(line));
    if t.len() == 0 {
        return ReplInput::Skip;
    }
    if crate::text::chars_eq(&t, "/exit") || crate::text::chars_eq(&t, "/quit") {
        return ReplInput::Exit;
    }
    if crate::text::chars_eq(&t, "/reset") {
        return ReplInput::Reset;
    }
    ReplInput::Send(string_from_chars(&t))
}

} // verus!
