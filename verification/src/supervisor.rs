//! Supervisor mode: a supervisor model decomposes a task into subtasks, each
//! subtask runs in a small sub-agent loop, and the results are aggregated.
//!
//! Model calls, tool runs and printing are the application's; the types here
//! read the supervisor's replies and keep the conversation and the results.

use vstd::prelude::*;
use crate::agent::{
    final_answer, final_answer_spec, is_text_message, legacy_tool_call_spec, json_from_str, line_views, lines_of,
    parse_tool_call, split_lines, trimmed, ConversationMemory,
};
use crate::audit::{AuditEventType, AuditLog};
use crate::error::{error_text, RavenClawsError};
use crate::eval::byte_len;
use crate::llm::{find, first_occurrence, ChatMessage};
use crate::text::{
    chars_of, decimal, has_prefix, push_chars, push_decimal, push_str, slice_range, starts_with,
    string_from_chars, trim_chars, trim_seq,
};

verus! {

/// Model calls a supervisor makes at most.
pub const SUPERVISOR_MAX_ITERATIONS: usize = 15;

/// Messages the supervisor's conversation keeps.
pub const SUPERVISOR_MEMORY: usize = 20;

/// Model calls a sub-agent makes at most.
pub const SUBTASK_MAX_ITERATIONS: usize = 5;

/// Messages a sub-agent's conversation keeps.
pub const SUBTASK_MEMORY: usize = 10;

// ── Reading replies ────────────────────────────────────────────────────────

/// The piece of `s` after the first `marker` and before the next one, as
/// `s.split(marker).nth(1)` returns it; `None` when `marker` does not occur.
pub open spec fn segment_after(s: Seq<char>, marker: Seq<char>) -> Option<Seq<char>> {
    match first_occurrence(s, marker) {
        None => None,
        Some(i) => {
            let after = s.skip(i + marker.len());
            match first_occurrence(after, marker) {
                None => Some(after),
                Some(j) => Some(after.take(j)),
            }
        },
    }
}

/// The text between the first and the second `:` of a line (`split(':').nth(1)`).
pub open spec fn second_field(l: Seq<char>) -> Option<Seq<char>> {
    segment_after(l, seq![':'])
}

/// The first of `ls` that starts with `p`.
pub open spec fn first_line_starting(ls: Seq<Seq<char>>, p: Seq<char>) -> Option<Seq<char>>
    decreases ls.len(),
{
    if ls.len() == 0 {
        None
    } else if has_prefix(ls[0], p) {
        Some(ls[0])
    } else {
        first_line_starting(ls.skip(1), p)
    }
}

/// The first `n` lines (all of them when fewer).
pub open spec fn head(ls: Seq<Seq<char>>, n: nat) -> Seq<Seq<char>> {
    if ls.len() <= n { ls } else { ls.take(n as int) }
}

/// A subtask's description: its first line, trimmed.
pub open spec fn subtask_description(h: Seq<Seq<char>>) -> Seq<char> {
    if h.len() > 0 { trim_seq(h[0]) } else { seq![] }
}

/// The agent a subtask names on its `AGENT:` line; `1` when none is named.
pub open spec fn agent_label(h: Seq<Seq<char>>) -> Seq<char> {
    match first_line_starting(h, "AGENT:"@) {
        Some(l) => match second_field(l) {
            Some(f) => trim_seq(f),
            None => "1"@,
        },
        None => "1"@,
    }
}

/// Whether `c` is an ASCII digit.
pub open spec fn is_digit(c: char) -> bool {
    '0' <= c && c <= '9'
}

/// The value of a string of decimal digits.
pub open spec fn digits_value(d: Seq<char>) -> nat
    decreases d.len(),
{
    if d.len() == 0 {
        0
    } else {
        digits_value(d.drop_last()) * 10 + ((d.last() as int - '0' as int) as nat)
    }
}

/// The digits of a number, without one leading `+` sign.
pub open spec fn unsigned_digits(s: Seq<char>) -> Seq<char> {
    if s.len() > 1 && s[0] == '+' { s.skip(1) } else { s }
}

/// What `usize::from_str` gives for `s`: a non-empty run of decimal digits,
/// optionally after `+`, whose value fits in a `usize`.
pub open spec fn parse_usize_spec(s: Seq<char>) -> Option<nat> {
    let d = unsigned_digits(s);
    if d.len() > 0 && (forall|i: int| 0 <= i < d.len() ==> is_digit(#[trigger] d[i])) && digits_value(d)
        <= usize::MAX {
        Some(digits_value(d))
    } else {
        None
    }
}

/// The provider a subtask names on its `PROVIDER:` line; 0 when none is named
/// or the name is not a number.
pub open spec fn provider_index(h: Seq<Seq<char>>) -> nat {
    match first_line_starting(h, "PROVIDER:"@) {
        Some(l) => match second_field(l) {
            Some(f) => match parse_usize_spec(trim_seq(f)) {
                Some(n) => n,
                None => 0,
            },
            None => 0,
        },
        None => 0,
    }
}

/// The subtask of a single-provider supervisor reply: the description and
/// the agent label, read from the first three lines after `SUBTASK:`.
pub open spec fn agent_subtask_spec(content: Seq<char>) -> Option<(Seq<char>, Seq<char>)> {
    match segment_after(content, "SUBTASK:"@) {
        None => None,
        Some(block) => {
            let h = head(lines_of(block), 3);
            Some((subtask_description(h), agent_label(h)))
        },
    }
}

/// The subtask of a multi-model supervisor reply, which must name both
/// `SUBTASK:` and `PROVIDER:`: the description and the provider index, read
/// from the first four lines after `SUBTASK:`.
pub open spec fn provider_subtask_spec(content: Seq<char>) -> Option<(Seq<char>, nat)> {
    if first_occurrence(content, "PROVIDER:"@) is None {
        None
    } else {
        match segment_after(content, "SUBTASK:"@) {
            None => None,
            Some(block) => {
                let h = head(lines_of(block), 4);
                Some((subtask_description(h), provider_index(h)))
            },
        }
    }
}

/// The piece after the first `marker`, up to the next one.
pub fn segment_after_chars(s: &[char], marker: &[char]) -> (r: Option<Vec<char>>)
    ensures
        match segment_after(s@, marker@) {
            None => r is None,
            Some(t) => r matches Some(v) && v@ == t,
        },
{
    match find(s, marker) {
        None => None,
        Some(i) => {
            let total = s.len();
            let from = i + marker.len();
            let after = slice_range(s, from, total);
            assert(after@ =~= s@.skip(i + marker@.len()));
            match find(&after, marker) {
                None => Some(after),
                Some(j) => {
                    let t = slice_range(&after, 0, j);
                    assert(t@ =~= after@.take(j as int));
                    Some(t)
                },
            }
        },
    }
}

fn first_line_starting_in(ls: &Vec<Vec<char>>, n: usize, p: &[char]) -> (r: Option<usize>)
    requires
        n <= ls@.len(),
    ensures
        match first_line_starting(line_views(ls@).take(n as int), p@) {
            None => r is None,
            Some(l) => r matches Some(k) && k < n && ls@[k as int]@ == l,
        },
{
    let ghost h = line_views(ls@).take(n as int);
    let mut i: usize = 0;
    assert(h.skip(0) =~= h);
    while i < n
        invariant
            i <= n <= ls@.len(),
            h == line_views(ls@).take(n as int),
            first_line_starting(h, p@) == first_line_starting(h.skip(i as int), p@),
        decreases n - i,
    {
        proof {
            assert(h.skip(i as int)[0] == ls@[i as int]@);
            assert(h.skip(i as int).skip(1) =~= h.skip(i + 1));
        }
        if starts_with(&ls[i], p) {
            return Some(i);
        }
        i = i + 1;
    }
    None
}

fn lines_of_chars(s: &[char]) -> (ls: Vec<Vec<char>>)
    ensures
        line_views(ls@) == lines_of(s@),
{
    let ls = split_lines(s);
    assert(line_views(ls@) =~= lines_of(s@));
    ls
}

/// Parses a decimal `usize` as `usize::from_str` does.
pub fn parse_usize(s: &[char]) -> (r: Option<usize>)
    ensures
        match parse_usize_spec(s@) {
            None => r is None,
            Some(n) => r == Some(n as usize),
        },
{
    let start: usize = if s.len() > 1 && s[0] == '+' { 1 } else { 0 };
    let ghost d = unsigned_digits(s@);
    assert(d =~= s@.skip(start as int));
    if start >= s.len() {
        return None;
    }
    let mut v: usize = 0;
    let mut i: usize = start;
    assert(d.take(0) =~= Seq::<char>::empty());
    while i < s.len()
        invariant
            start <= i <= s@.len(),
            start < s@.len(),
            d == s@.skip(start as int),
            d == unsigned_digits(s@),
            v == digits_value(d.take(i - start)),
            forall|k: int| 0 <= k < i - start ==> is_digit(#[trigger] d[k]),
        decreases s@.len() - i,
    {
        let c = s[i];
        let ghost k = i - start;
        proof {
            assert(d[k] == c);
            assert(d.take(k + 1).drop_last() =~= d.take(k));
            assert(d.take(k + 1).last() == c);
        }
        if !('0' <= c && c <= '9') {
            assert(!is_digit(d[k]));
            return None;
        }
        let dig: usize = ((c as u32) - ('0' as u32)) as usize;
        assert(dig == (c as int - '0' as int));
        let next = match v.checked_mul(10) {
            None => None,
            Some(m) => m.checked_add(dig),
        };
        match next {
            None => {
                proof {
                    assert(digits_value(d.take(k + 1)) > usize::MAX);
                    if forall|j: int| 0 <= j < d.len() ==> is_digit(#[trigger] d[j]) {
                        lemma_digits_value_prefix(d, k + 1);
                    }
                }
                return None;
            },
            Some(n) => {
                v = n;
            },
        }
        i = i + 1;
    }
    proof {
        assert(d.take(d.len() as int) =~= d);
    }
    Some(v)
}

/// A prefix of a run of digits is worth no more than the whole run.
proof fn lemma_digits_value_prefix(d: Seq<char>, k: int)
    requires
        0 <= k <= d.len(),
        forall|i: int| 0 <= i < d.len() ==> is_digit(#[trigger] d[i]),
    ensures
        digits_value(d.take(k)) <= digits_value(d),
    decreases d.len(),
{
    if k < d.len() {
        let dl = d.drop_last();
        assert(is_digit(d[d.len() - 1]));
        assert forall|i: int| 0 <= i < dl.len() implies is_digit(#[trigger] dl[i]) by {
            assert(dl[i] == d[i]);
        }
        lemma_digits_value_prefix(dl, k);
        assert(dl.take(k) =~= d.take(k));
    } else {
        assert(d.take(k) =~= d);
    }
}

fn second_field_of(l: &[char]) -> (r: Option<Vec<char>>)
    ensures
        match second_field(l@) {
            None => r is None,
            Some(t) => r matches Some(v) && v@ == t,
        },
{
    let colon: Vec<char> = vec![':'];
    assert(colon@ =~= seq![':']);
    segment_after_chars(l, &colon)
}

/// Reads the subtask of a single-provider supervisor reply.
pub fn parse_agent_subtask(content: &str) -> (r: Option<(String, String)>)
    ensures
        match agent_subtask_spec(content@) {
            None => r is None,
            Some(p) => r matches Some(q) && q.0@ == p.0 && q.1@ == p.1,
        },
{
    let c = chars_of(content);
    let marker = chars_of("SUBTASK:");
    let agent_marker = chars_of("AGENT:");
    let block = match segment_after_chars(&c, &marker) {
        None => return None,
        Some(b) => b,
    };
    let ls = lines_of_chars(&block);
    let n: usize = if ls.len() < 3 { ls.len() } else { 3 };
    let ghost h = head(lines_of(block@), 3);
    assert(h =~= line_views(ls@).take(n as int));
    let desc = if n > 0 {
        assert(h[0] == ls@[0]@);
        trim_chars(&ls[0])
    } else {
        Vec::new()
    };
    let one = chars_of("1");
    let agent = match first_line_starting_in(&ls, n, &agent_marker) {
        None => one,
        Some(k) => match second_field_of(&ls[k]) {
            None => one,
            Some(f) => trim_chars(&f),
        },
    };
    proof {
        reveal_strlit("1");
        assert(trim_seq("1"@) =~= "1"@) by {
            assert("1"@.len() == 1);
        }
    }
    Some((string_from_chars(&desc), string_from_chars(&agent)))
}

/// Reads the subtask of a multi-model supervisor reply.
pub fn parse_provider_subtask(content: &str) -> (r: Option<(String, usize)>)
    ensures
        match provider_subtask_spec(content@) {
            None => r is None,
            Some(p) => r matches Some(q) && q.0@ == p.0 && q.1 == p.1,
        },
{
    let c = chars_of(content);
    let provider_marker = chars_of("PROVIDER:");
    if find(&c, &provider_marker).is_none() {
        return None;
    }
    let marker = chars_of("SUBTASK:");
    let block = match segment_after_chars(&c, &marker) {
        None => return None,
        Some(b) => b,
    };
    let ls = lines_of_chars(&block);
    let n: usize = if ls.len() < 4 { ls.len() } else { 4 };
    let ghost h = head(lines_of(block@), 4);
    assert(h =~= line_views(ls@).take(n as int));
    let desc = if n > 0 {
        assert(h[0] == ls@[0]@);
        trim_chars(&ls[0])
    } else {
        Vec::new()
    };
    let index: usize = match first_line_starting_in(&ls, n, &provider_marker) {
        None => 0,
        Some(k) => match second_field_of(&ls[k]) {
            None => 0,
            Some(f) => match parse_usize(&trim_chars(&f)) {
                None => 0,
                Some(x) => x,
            },
        },
    };
    Some((string_from_chars(&desc), index))
}

// ── The supervisor ─────────────────────────────────────────────────────────

/// `after` is `before` with one more message of the given role and content,
/// trimmed to `cap` messages.
pub open spec fn appended(
    before: Seq<ChatMessage>,
    after: Seq<ChatMessage>,
    role: Seq<char>,
    content: Seq<char>,
    cap: nat,
) -> bool {
    exists|m: ChatMessage| is_text_message(m, role, content) && after == trimmed(before.push(m), cap)
}

/// The task prompt of a supervisor; `providers` is the number of providers
/// of a multi-model supervisor.
pub open spec fn supervisor_prompt_text(providers: Option<usize>) -> Seq<char> {
    match providers {
        None => "You are a supervisor agent. Your task is to decompose complex tasks into subtasks and coordinate sub-agents to complete them. \n\nFor each subtask, respond with:\nSUBTASK: <description>\nAGENT: <agent_number>\n\nWhen all subtasks are complete, respond with:\nFINAL: <aggregated result>\n\nTask: Coordinate the completion of the assigned task."@,
        Some(n) => "You are a supervisor agent coordinating multiple LLM providers. Decompose tasks and assign them to appropriate providers based on their strengths. \n\nFor each subtask, respond with:\nSUBTASK: <description>\nPROVIDER: <provider_index 0-"@
            + decimal((n - 1) as nat)
            + ">\n\nWhen complete, respond with:\nFINAL: <aggregated result>\n\nTask: Coordinate the completion of the assigned task using available providers."@,
    }
}

/// The metadata of the audit entry written when the supervisor finishes.
pub open spec fn finish_metadata(iterations: nat, completed: nat, providers: Option<usize>) -> Seq<char> {
    match providers {
        None => "{\"iterations\":"@ + decimal(iterations) + ",\"subtasks_completed\":"@ + decimal(completed) + "}"@,
        Some(n) => "{\"iterations\":"@ + decimal(iterations) + ",\"providers_used\":"@ + decimal(n as nat)
            + ",\"subtasks_completed\":"@ + decimal(completed) + "}"@,
    }
}

/// Texts joined with a separator.
pub open spec fn joined(parts: Seq<Seq<char>>, sep: Seq<char>) -> Seq<char>
    decreases parts.len(),
{
    if parts.len() == 0 {
        seq![]
    } else if parts.len() == 1 {
        parts[0]
    } else {
        joined(parts.drop_last(), sep) + sep + parts.last()
    }
}

/// What follows a supervisor reply.
#[derive(Debug)]
pub enum SupervisorStep {
    /// The supervisor gave its final answer.
    Finished(String),
    /// Run this subtask in a sub-agent, then report with
    /// [`SupervisorLoop::after_subtask`].
    RunSubtask { description: String, agent: String },
    /// Run this subtask with client `client` (the named provider when it
    /// exists, else the first), then report with
    /// [`SupervisorLoop::after_provider_subtask`].
    RunProviderSubtask { description: String, provider: usize, client: usize },
    /// Ask the supervisor again.
    Continue,
}

/// The state of a supervisor: its conversation, the subtask results so far,
/// the model calls made, and, in multi-model mode, the number of providers.
#[derive(Debug)]
pub struct SupervisorLoop {
    memory: ConversationMemory,
    results: Vec<String>,
    calls: usize,
    providers: Option<usize>,
}

impl SupervisorLoop {
    /// The conversation so far.
    pub closed spec fn messages(&self) -> Seq<ChatMessage> {
        self.memory.msgs()
    }

    /// The subtask results so far.
    pub closed spec fn collected(&self) -> Seq<Seq<char>> {
        self.results@.map_values(|r: String| r@)
    }

    /// The model calls made so far.
    pub closed spec fn calls_made(&self) -> nat {
        self.calls as nat
    }

    /// The number of providers of a multi-model supervisor.
    pub closed spec fn provider_count(&self) -> Option<usize> {
        self.providers
    }

    /// The conversation keeps at most 20 messages, at most 15 calls are made,
    /// and a multi-model supervisor has at least one provider.
    pub closed spec fn well_formed(&self) -> bool {
        &&& self.memory.cap() == SUPERVISOR_MEMORY
        &&& self.calls <= SUPERVISOR_MAX_ITERATIONS
        &&& self.providers matches Some(n) ==> n > 0
    }

    /// A supervisor given the system prompt and its task prompt.
    pub fn start(system_prompt: &str, providers: Option<usize>) -> (s: Self)
        requires
            providers matches Some(n) ==> n > 0,
        ensures
            s.well_formed(),
            s.messages().len() == 2,
            is_text_message(s.messages()[0], "system"@, system_prompt@),
            is_text_message(s.messages()[1], "user"@, supervisor_prompt_text(providers)),
            s.collected().len() == 0,
            s.calls_made() == 0,
            s.provider_count() == providers,
    {
        let mut v: Vec<char> = Vec::new();
        match providers {
            None => push_str(
                &mut v,
                "You are a supervisor agent. Your task is to decompose complex tasks into subtasks and coordinate sub-agents to complete them. \n\nFor each subtask, respond with:\nSUBTASK: <description>\nAGENT: <agent_number>\n\nWhen all subtasks are complete, respond with:\nFINAL: <aggregated result>\n\nTask: Coordinate the completion of the assigned task.",
            ),
            Some(n) => {
                push_str(
                    &mut v,
                    "You are a supervisor agent coordinating multiple LLM providers. Decompose tasks and assign them to appropriate providers based on their strengths. \n\nFor each subtask, respond with:\nSUBTASK: <description>\nPROVIDER: <provider_index 0-",
                );
                push_decimal(&mut v, (n - 1) as u64);
                push_str(
                    &mut v,
                    ">\n\nWhen complete, respond with:\nFINAL: <aggregated result>\n\nTask: Coordinate the completion of the assigned task using available providers.",
                );
            },
        }
        let prompt = string_from_chars(&v);
        let mut memory = ConversationMemory::new(system_prompt, SUPERVISOR_MEMORY);
        let ghost first = memory.msgs();
        memory.add_user_message(prompt.as_str());
        proof {
            let m = choose|m: ChatMessage| is_text_message(m, "user"@, prompt@) && memory.msgs() == trimmed(
                first.push(m),
                SUPERVISOR_MEMORY as nat,
            );
            assert(memory.msgs() == first.push(m));
        }
        SupervisorLoop { memory, results: Vec::new(), calls: 0, providers }
    }

    /// The conversation to send to the supervisor model.
    pub fn history(&self) -> (h: &[ChatMessage])
        ensures
            h@ == self.messages(),
    {
        self.memory.history()
    }

    /// Starts a model call: the client to ask (in multi-model mode the
    /// clients take turns by call number), or `None` once 15 calls were made.
    pub fn next_call(&mut self) -> (c: Option<usize>)
        requires
            old(self).well_formed(),
        ensures
            final(self).well_formed(),
            final(self).messages() == old(self).messages(),
            final(self).collected() == old(self).collected(),
            final(self).provider_count() == old(self).provider_count(),
            old(self).calls_made() < SUPERVISOR_MAX_ITERATIONS ==> final(self).calls_made() == old(self).calls_made()
                + 1 && c == Some(
                match old(self).provider_count() {
                    None => 0usize,
                    Some(n) => ((old(self).calls_made() + 1) % (n as nat)) as usize,
                },
            ),
            old(self).calls_made() >= SUPERVISOR_MAX_ITERATIONS ==> c is None && final(self).calls_made()
                == old(self).calls_made(),
    {
        if self.calls >= SUPERVISOR_MAX_ITERATIONS {
            return None;
        }
        self.calls = self.calls + 1;
        match self.providers {
            None => Some(0),
            Some(n) => Some(self.calls % n),
        }
    }

    /// Reads a supervisor reply. A final answer ends the run (and is audited);
    /// a subtask with a description is handed out; any other reply that names
    /// no subtask is recorded in the conversation.
    pub fn after_response(&mut self, content: &str, audit: &mut AuditLog) -> (s: SupervisorStep)
        requires
            old(self).well_formed(),
            old(audit).records().len() < u64::MAX,
        ensures
            final(self).well_formed(),
            final(self).collected() == old(self).collected(),
            final(self).calls_made() == old(self).calls_made(),
            final(self).provider_count() == old(self).provider_count(),
            first_occurrence(content@, "FINAL:"@) is Some ==> {
                &&& s matches SupervisorStep::Finished(a) && a@ == final_answer_spec(content@)
                &&& final(self).messages() == old(self).messages()
                &&& final(audit).records().drop_last() == old(audit).records()
                &&& final(audit).records().len() == old(audit).records().len() + 1
                &&& final(audit).records().last().event_type == AuditEventType::AgentFinish
                &&& final(audit).records().last().component@ == "supervisor"@
                &&& final(audit).records().last().description@ == "Supervisor completed task coordination"@
                &&& final(audit).records().last().metadata matches Some(m) && m@ == finish_metadata(
                    old(self).calls_made(),
                    old(self).collected().len(),
                    old(self).provider_count(),
                )
            },
            first_occurrence(content@, "FINAL:"@) is None ==> {
                &&& *final(audit) == *old(audit)
                &&& match old(self).provider_count() {
                    None => match agent_subtask_spec(content@) {
                        Some(p) => final(self).messages() == old(self).messages() && if p.0.len() > 0 {
                            s matches SupervisorStep::RunSubtask { description, agent } && description@ == p.0
                                && agent@ == p.1
                        } else {
                            s is Continue
                        },
                        None => s is Continue && appended(
                            old(self).messages(),
                            final(self).messages(),
                            "assistant"@,
                            content@,
                            SUPERVISOR_MEMORY as nat,
                        ),
                    },
                    Some(n) => match provider_subtask_spec(content@) {
                        Some(p) => final(self).messages() == old(self).messages() && if p.0.len() > 0 {
                            s matches SupervisorStep::RunProviderSubtask { description, provider, client }
                                && description@ == p.0 && provider == p.1 && client == (if p.1 < n {
                                p.1
                            } else {
                                0
                            })
                        } else {
                            s is Continue
                        },
                        None => s is Continue && appended(
                            old(self).messages(),
                            final(self).messages(),
                            "assistant"@,
                            content@,
                            SUPERVISOR_MEMORY as nat,
                        ),
                    },
                }
            },
    {
        let c = chars_of(content);
        let fin = chars_of("FINAL:");
        if find(&c, &fin).is_some() {
            let answer = final_answer(content);
            let mut m: Vec<char> = Vec::new();
            push_str(&mut m, "{\"iterations\":");
            push_decimal(&mut m, self.calls as u64);
            match self.providers {
                None => {},
                Some(n) => {
                    push_str(&mut m, ",\"providers_used\":");
                    push_decimal(&mut m, n as u64);
                },
            }
            push_str(&mut m, ",\"subtasks_completed\":");
            push_decimal(&mut m, self.results.len() as u64);
            push_str(&mut m, "}");
            let _ = audit.append(
                AuditEventType::AgentFinish,
                "supervisor",
                "Supervisor completed task coordination",
                Some(string_from_chars(&m)),
            );
            return SupervisorStep::Finished(answer);
        }
        match self.providers {
            None => match parse_agent_subtask(content) {
                Some((description, agent)) => {
                    if description.as_str().is_empty() {
                        SupervisorStep::Continue
                    } else {
                        SupervisorStep::RunSubtask { description, agent }
                    }
                },
                None => {
                    self.memory.add_assistant_message(content);
                    SupervisorStep::Continue
                },
            },
            Some(n) => match parse_provider_subtask(content) {
                Some((description, provider)) => {
                    if description.as_str().is_empty() {
                        SupervisorStep::Continue
                    } else {
                        let client = if provider < n { provider } else { 0 };
                        SupervisorStep::RunProviderSubtask { description, provider, client }
                    }
                },
                None => {
                    self.memory.add_assistant_message(content);
                    SupervisorStep::Continue
                },
            },
        }
    }

    /// Records the outcome of a single-provider subtask run for `agent`.
    pub fn after_subtask(&mut self, agent: &str, description: &str, outcome: Result<String, RavenClawsError>)
        requires
            old(self).well_formed(),
        ensures
            final(self).well_formed(),
            final(self).calls_made() == old(self).calls_made(),
            final(self).provider_count() == old(self).provider_count(),
            match outcome {
                Ok(r) => {
                    &&& final(self).collected() == old(self).collected().push(
                        "Agent "@ + agent@ + " result: "@ + r@,
                    )
                    &&& exists|mid: Seq<ChatMessage>|
                        appended(
                            old(self).messages(),
                            mid,
                            "assistant"@,
                            "Decomposed subtask "@ + agent@ + ": "@ + description@,
                            SUPERVISOR_MEMORY as nat,
                        ) && appended(
                            mid,
                            final(self).messages(),
                            "user"@,
                            "Subtask "@ + agent@ + " result: "@ + r@,
                            SUPERVISOR_MEMORY as nat,
                        )
                },
                Err(e) => {
                    &&& final(self).collected() == old(self).collected()
                    &&& appended(
                        old(self).messages(),
                        final(self).messages(),
                        "assistant"@,
                        "Subtask "@ + agent@ + " failed: "@ + error_text(e),
                        SUPERVISOR_MEMORY as nat,
                    )
                },
            },
    {
        match outcome {
            Ok(r) => {
                let mut t: Vec<char> = Vec::new();
                push_str(&mut t, "Agent ");
                push_str(&mut t, agent);
                push_str(&mut t, " result: ");
                push_str(&mut t, r.as_str());
                let mut a: Vec<char> = Vec::new();
                push_str(&mut a, "Decomposed subtask ");
                push_str(&mut a, agent);
                push_str(&mut a, ": ");
                push_str(&mut a, description);
                let mut u: Vec<char> = Vec::new();
                push_str(&mut u, "Subtask ");
                push_str(&mut u, agent);
                push_str(&mut u, " result: ");
                push_str(&mut u, r.as_str());
                assert(t@ =~= "Agent "@ + agent@ + " result: "@ + r@);
                assert(a@ =~= "Decomposed subtask "@ + agent@ + ": "@ + description@);
                assert(u@ =~= "Subtask "@ + agent@ + " result: "@ + r@);
                let ghost start = self.memory.msgs();
                self.record_result(string_from_chars(&t));
                let a_text = string_from_chars(&a);
                self.memory.add_assistant_message(a_text.as_str());
                let ghost mid = self.memory.msgs();
                assert(appended(start, mid, "assistant"@, a_text@, SUPERVISOR_MEMORY as nat));
                let u_text = string_from_chars(&u);
                self.memory.add_user_message(u_text.as_str());
                assert(appended(mid, self.memory.msgs(), "user"@, u_text@, SUPERVISOR_MEMORY as nat));
                assert(self.collected() == old(self).collected().push("Agent "@ + agent@ + " result: "@ + r@));
                assert(start == old(self).messages());
            },
            Err(e) => {
                let msg = e.message();
                let mut a: Vec<char> = Vec::new();
                push_str(&mut a, "Subtask ");
                push_str(&mut a, agent);
                push_str(&mut a, " failed: ");
                push_str(&mut a, msg.as_str());
                assert(a@ =~= "Subtask "@ + agent@ + " failed: "@ + error_text(e));
                let a_text = string_from_chars(&a);
                self.memory.add_assistant_message(a_text.as_str());
            },
        }
    }

    /// Records the outcome of a multi-model subtask run for `provider`, run by
    /// the client named `provider_name`.
    pub fn after_provider_subtask(
        &mut self,
        provider: usize,
        provider_name: &str,
        description: &str,
        outcome: Result<String, RavenClawsError>,
    )
        requires
            old(self).well_formed(),
        ensures
            final(self).well_formed(),
            final(self).calls_made() == old(self).calls_made(),
            final(self).provider_count() == old(self).provider_count(),
            match outcome {
                Ok(r) => {
                    &&& final(self).collected() == old(self).collected().push(
                        "Provider "@ + decimal(provider as nat) + " ("@ + provider_name@ + "): "@ + r@,
                    )
                    &&& exists|mid: Seq<ChatMessage>|
                        appended(
                            old(self).messages(),
                            mid,
                            "assistant"@,
                            "Assigned subtask to provider "@ + decimal(provider as nat) + ": "@ + description@,
                            SUPERVISOR_MEMORY as nat,
                        ) && appended(
                            mid,
                            final(self).messages(),
                            "user"@,
                            "Provider "@ + decimal(provider as nat) + " result: "@ + r@,
                            SUPERVISOR_MEMORY as nat,
                        )
                },
                Err(e) => {
                    &&& final(self).collected() == old(self).collected()
                    &&& appended(
                        old(self).messages(),
                        final(self).messages(),
                        "assistant"@,
                        "Provider "@ + decimal(provider as nat) + " subtask failed: "@ + error_text(e),
                        SUPERVISOR_MEMORY as nat,
                    )
                },
            },
    {
        match outcome {
            Ok(r) => {
                let mut t: Vec<char> = Vec::new();
                push_str(&mut t, "Provider ");
                push_decimal(&mut t, provider as u64);
                push_str(&mut t, " (");
                push_str(&mut t, provider_name);
                push_str(&mut t, "): ");
                push_str(&mut t, r.as_str());
                let mut a: Vec<char> = Vec::new();
                push_str(&mut a, "Assigned subtask to provider ");
                push_decimal(&mut a, provider as u64);
                push_str(&mut a, ": ");
                push_str(&mut a, description);
                let mut u: Vec<char> = Vec::new();
                push_str(&mut u, "Provider ");
                push_decimal(&mut u, provider as u64);
                push_str(&mut u, " result: ");
                push_str(&mut u, r.as_str());
                assert(t@ =~= "Provider "@ + decimal(provider as nat) + " ("@ + provider_name@ + "): "@ + r@);
                assert(a@ =~= "Assigned subtask to provider "@ + decimal(provider as nat) + ": "@ + description@);
                assert(u@ =~= "Provider "@ + decimal(provider as nat) + " result: "@ + r@);
                let ghost start = self.memory.msgs();
                self.record_result(string_from_chars(&t));
                let a_text = string_from_chars(&a);
                self.memory.add_assistant_message(a_text.as_str());
                let ghost mid = self.memory.msgs();
                assert(appended(start, mid, "assistant"@, a_text@, SUPERVISOR_MEMORY as nat));
                let u_text = string_from_chars(&u);
                self.memory.add_user_message(u_text.as_str());
                assert(appended(mid, self.memory.msgs(), "user"@, u_text@, SUPERVISOR_MEMORY as nat));
                assert(self.collected() == old(self).collected().push(
                    "Provider "@ + decimal(provider as nat) + " ("@ + provider_name@ + "): "@ + r@,
                ));
                assert(start == old(self).messages());
            },
            Err(e) => {
                let msg = e.message();
                let mut a: Vec<char> = Vec::new();
                push_str(&mut a, "Provider ");
                push_decimal(&mut a, provider as u64);
                push_str(&mut a, " subtask failed: ");
                push_str(&mut a, msg.as_str());
                assert(a@ =~= "Provider "@ + decimal(provider as nat) + " subtask failed: "@ + error_text(e));
                let a_text = string_from_chars(&a);
                self.memory.add_assistant_message(a_text.as_str());
            },
        }
    }

    fn record_result(&mut self, text: String)
        requires
            old(self).well_formed(),
        ensures
            final(self).memory == old(self).memory,
            final(self).calls == old(self).calls,
            final(self).providers == old(self).providers,
            final(self).collected() == old(self).collected().push(text@),
            final(self).results@.len() == old(self).results@.len() + 1,
    {
        let ghost before = self.results@;
        self.results.push(text);
        proof {
            assert(self.results@.map_values(|r: String| r@) =~= before.map_values(|r: String| r@).push(text@));
        }
    }

    /// The result when the supervisor gave no final answer: the subtask
    /// results separated by blank lines, or an error when there are none.
    pub fn finish(&self) -> (r: Result<String, RavenClawsError>)
        ensures
            self.collected().len() > 0 ==> (r matches Ok(s) && s@ == joined(self.collected(), "\n\n"@)),
            self.collected().len() == 0 ==> (r matches Err(RavenClawsError::CommandExecution(m)) && m@
                == "Supervisor mode completed without results"@),
    {
        if self.results.len() == 0 {
            return Err(RavenClawsError::CommandExecution(String::from_str("Supervisor mode completed without results")));
        }
        let mut v: Vec<char> = Vec::new();
        let mut i: usize = 0;
        let ghost parts = self.collected();
        while i < self.results.len()
            invariant
                i <= self.results@.len(),
                parts == self.collected(),
                parts.len() == self.results@.len(),
                i > 0 ==> v@ == joined(parts.take(i as int), "\n\n"@),
                i == 0 ==> v@.len() == 0,
            decreases self.results@.len() - i,
        {
            proof {
                assert(parts[i as int] == self.results@[i as int]@);
                let p = parts.take(i + 1);
                assert(p.drop_last() =~= parts.take(i as int));
                assert(p.last() == parts[i as int]);
            }
            if i > 0 {
                push_str(&mut v, "\n\n");
            }
            push_str(&mut v, self.results[i].as_str());
            proof {
                if i == 0 {
                    assert(v@ =~= parts[0]);
                    assert(parts.take(1).len() == 1);
                }
            }
            i = i + 1;
        }
        proof {
            assert(parts.take(parts.len() as int) =~= parts);
        }
        Ok(string_from_chars(&v))
    }

    /// The summary broadcast to the mesh after an aggregated result.
    pub fn summary(&self, aggregated: &str) -> (s: String)
        ensures
            s@ == match self.provider_count() {
                None => "Supervisor completed: "@,
                Some(_) => "Multi-model supervisor completed: "@,
            } + decimal(self.collected().len()) + " subtasks, result: "@ + decimal(byte_len(aggregated@))
                + " chars"@,
    {
        let mut v: Vec<char> = Vec::new();
        match self.providers {
            None => push_str(&mut v, "Supervisor completed: "),
            Some(_) => push_str(&mut v, "Multi-model supervisor completed: "),
        }
        push_decimal(&mut v, self.results.len() as u64);
        push_str(&mut v, " subtasks, result: ");
        push_decimal(&mut v, aggregated.len() as u64);
        push_str(&mut v, " chars");
        string_from_chars(&v)
    }
}

// ── Sub-agents ────────────────────────────────────────────────────────────

/// `s` with every occurrence of `p` removed, left to right (`s.replace(p, "")`).
pub open spec fn remove_all(s: Seq<char>, p: Seq<char>) -> Seq<char>
    decreases s.len(),
{
    if p.len() == 0 {
        s
    } else {
        match first_occurrence(s, p) {
            None => s,
            Some(i) => if 0 <= i && i + p.len() <= s.len() {
                s.take(i) + remove_all(s.skip(i + p.len()), p)
            } else {
                s
            },
        }
    }
}

/// `s` with every occurrence of `p` removed.
pub fn remove_all_chars(s: &[char], p: &[char]) -> (r: Vec<char>)
    requires
        p@.len() > 0,
    ensures
        r@ == remove_all(s@, p@),
{
    let mut out: Vec<char> = Vec::new();
    let total = s.len();
    let mut rest: Vec<char> = slice_range(s, 0, total);
    assert(rest@ =~= s@);
    assert(out@ + remove_all(rest@, p@) =~= remove_all(s@, p@));
    loop
        invariant
            p@.len() > 0,
            out@ + remove_all(rest@, p@) == remove_all(s@, p@),
        decreases rest@.len(),
    {
        match find(&rest, p) {
            None => {
                let ghost before = out@;
                push_chars(&mut out, &rest);
                assert(out@ =~= before + remove_all(rest@, p@));
                return out;
            },
            Some(i) => {
                let n = rest.len();
                let from = i + p.len();
                let pre = slice_range(&rest, 0, i);
                let tail = slice_range(&rest, from, n);
                proof {
                    assert(pre@ =~= rest@.take(i as int));
                    assert(tail@ =~= rest@.skip(from as int));
                    assert(remove_all(rest@, p@) == rest@.take(i as int) + remove_all(rest@.skip(from as int), p@));
                }
                let ghost before = out@;
                push_chars(&mut out, &pre);
                assert(out@ + remove_all(tail@, p@) =~= before + remove_all(rest@, p@));
                rest = tail;
            },
        }
    }
}

/// Whether a sub-agent reply ends the subtask.
pub open spec fn subtask_done(content: Seq<char>) -> bool {
    first_occurrence(content, "FINAL:"@) is Some || first_occurrence(content, "DONE:"@) is Some
}

/// The answer of a sub-agent reply that ends the subtask: the reply without
/// its `FINAL:` and `DONE:` markers, trimmed.
pub open spec fn subtask_answer(content: Seq<char>) -> Seq<char> {
    trim_seq(remove_all(remove_all(content, "FINAL:"@), "DONE:"@))
}

/// What follows a sub-agent reply.
#[derive(Debug)]
pub enum SubtaskStep {
    /// The subtask is done, with this result.
    Done(String),
    /// Run this tool (through the policy checks), then report its output with
    /// [`SubtaskAgent::after_tool`].
    RunTool { name: String, args: serde_json::Value },
    /// Ask the model again.
    Continue,
}

/// A sub-agent working on one subtask for at most five model calls.
#[derive(Debug)]
pub struct SubtaskAgent {
    memory: ConversationMemory,
    calls: usize,
    pending: Option<String>,
}

impl SubtaskAgent {
    /// The conversation so far.
    pub closed spec fn messages(&self) -> Seq<ChatMessage> {
        self.memory.msgs()
    }

    /// The model calls made so far.
    pub closed spec fn calls_made(&self) -> nat {
        self.calls as nat
    }

    /// The reply whose tool call is running, if any.
    pub closed spec fn pending_reply(&self) -> Option<Seq<char>> {
        match self.pending {
            Some(p) => Some(p@),
            None => None,
        }
    }

    /// The conversation keeps at most ten messages and at most five calls are made.
    pub closed spec fn well_formed(&self) -> bool {
        self.memory.cap() == SUBTASK_MEMORY && self.calls <= SUBTASK_MAX_ITERATIONS
    }

    /// A sub-agent given the system prompt and the subtask.
    pub fn start(system_prompt: &str, subtask: &str) -> (a: Self)
        ensures
            a.well_formed(),
            a.calls_made() == 0,
            a.pending_reply() is None,
            a.messages().len() == 2,
            is_text_message(a.messages()[0], "system"@, system_prompt@),
            is_text_message(a.messages()[1], "user"@, "Execute this subtask: "@ + subtask@),
    {
        let mut v: Vec<char> = Vec::new();
        push_str(&mut v, "Execute this subtask: ");
        push_str(&mut v, subtask);
        let prompt = string_from_chars(&v);
        assert(prompt@ =~= "Execute this subtask: "@ + subtask@);
        let mut memory = ConversationMemory::new(system_prompt, SUBTASK_MEMORY);
        let ghost first = memory.msgs();
        memory.add_user_message(prompt.as_str());
        proof {
            let m = choose|m: ChatMessage| is_text_message(m, "user"@, prompt@) && memory.msgs() == trimmed(
                first.push(m),
                SUBTASK_MEMORY as nat,
            );
            assert(memory.msgs() == first.push(m));
        }
        SubtaskAgent { memory, calls: 0, pending: None }
    }

    /// The conversation to send to the model.
    pub fn history(&self) -> (h: &[ChatMessage])
        ensures
            h@ == self.messages(),
    {
        self.memory.history()
    }

    /// Starts a model call; `false` once five calls were made.
    pub fn next_call(&mut self) -> (b: bool)
        requires
            old(self).well_formed(),
        ensures
            final(self).well_formed(),
            final(self).messages() == old(self).messages(),
            final(self).pending_reply() == old(self).pending_reply(),
            b == (old(self).calls_made() < SUBTASK_MAX_ITERATIONS),
            final(self).calls_made() == old(self).calls_made() + (if b { 1int } else { 0int }),
    {
        if self.calls >= SUBTASK_MAX_ITERATIONS {
            return false;
        }
        self.calls = self.calls + 1;
        true
    }

    /// Reads a reply: `FINAL:` or `DONE:` ends the subtask; a legacy tool call
    /// is run; anything else is recorded and the agent is told to go on.
    pub fn after_response(&mut self, content: &str) -> (s: SubtaskStep)
        requires
            old(self).well_formed(),
            old(self).pending_reply() is None,
        ensures
            final(self).well_formed(),
            final(self).calls_made() == old(self).calls_made(),
            subtask_done(content@) ==> (s matches SubtaskStep::Done(a) && a@ == subtask_answer(content@))
                && final(self).messages() == old(self).messages() && final(self).pending_reply() is None,
            !subtask_done(content@) ==> match legacy_tool_call_spec(content@) {
                Some(p) if json_from_str(p.1) is Some => (s matches SubtaskStep::RunTool { name, args } && name@ == p.0
                    && args == json_from_str(p.1).unwrap())
                    && final(self).messages() == old(self).messages() && final(self).pending_reply() == Some(
                    content@,
                ),
                _ => s is Continue && final(self).pending_reply() is None && exists|mid: Seq<ChatMessage>|
                    appended(old(self).messages(), mid, "assistant"@, content@, SUBTASK_MEMORY as nat) && appended(
                        mid,
                        final(self).messages(),
                        "user"@,
                        "Continue with next step."@,
                        SUBTASK_MEMORY as nat,
                    ),
            },
    {
        let c = chars_of(content);
        let fin = chars_of("FINAL:");
        let done = chars_of("DONE:");
        proof {
            reveal_strlit("FINAL:");
            reveal_strlit("DONE:");
        }
        if find(&c, &fin).is_some() || find(&c, &done).is_some() {
            let a = remove_all_chars(&c, &fin);
            let b = remove_all_chars(&a, &done);
            let t = trim_chars(&b);
            return SubtaskStep::Done(string_from_chars(&t));
        }
        match parse_tool_call(content) {
            Some((name, args)) => {
                self.pending = Some(String::from_str(content));
                SubtaskStep::RunTool { name, args }
            },
            None => {
                let ghost start = self.memory.msgs();
                self.memory.add_assistant_message(content);
                let ghost mid = self.memory.msgs();
                assert(appended(start, mid, "assistant"@, content@, SUBTASK_MEMORY as nat));
                self.memory.add_user_message("Continue with next step.");
                assert(appended(mid, self.memory.msgs(), "user"@, "Continue with next step."@, SUBTASK_MEMORY as nat));
                assert(start == old(self).messages());
                SubtaskStep::Continue
            },
        }
    }

    /// Records a tool's output after the reply that asked for it.
    pub fn after_tool(&mut self, output: &str)
        requires
            old(self).well_formed(),
            old(self).pending_reply() is Some,
        ensures
            final(self).well_formed(),
            final(self).calls_made() == old(self).calls_made(),
            final(self).pending_reply() is None,
            exists|mid: Seq<ChatMessage>|
                appended(old(self).messages(), mid, "assistant"@, old(self).pending_reply().unwrap(), SUBTASK_MEMORY as nat)
                    && appended(mid, final(self).messages(), "user"@, "Tool result: "@ + output@, SUBTASK_MEMORY as nat),
    {
        let reply = match self.pending.take() {
            Some(r) => r,
            None => String::new(),
        };
        let mut v: Vec<char> = Vec::new();
        push_str(&mut v, "Tool result: ");
        push_str(&mut v, output);
        assert(v@ =~= "Tool result: "@ + output@);
        let text = string_from_chars(&v);
        let ghost start = self.memory.msgs();
        self.memory.add_assistant_message(reply.as_str());
        let ghost mid = self.memory.msgs();
        assert(appended(start, mid, "assistant"@, reply@, SUBTASK_MEMORY as nat));
        self.memory.add_user_message(text.as_str());
        assert(appended(mid, self.memory.msgs(), "user"@, text@, SUBTASK_MEMORY as nat));
        assert(start == old(self).messages());
        assert(reply@ == old(self).pending_reply().unwrap());
    }

    /// The result when five calls brought no answer.
    pub fn exhausted_result() -> (s: String)
        ensures
            s@ == "Subtask completed"@,
    {
        String::from_str("Subtask completed")
    }
}

} // verus!