//! The agent loop: conversation memory, tool-call parsing and the decisions
//! taken at each iteration.
//!
//! The loop alternates model calls, tool executions and checkpoint writes,
//! which the application performs; [`AgentLoop`] holds the state between them
//! and decides, from what came back, what happens next.

use vstd::prelude::*;
use crate::error::RavenClawsError;
use crate::llm::{ChatMessage, Choice, ContentPart, first_occurrence, first_occurrence_from, find, ImageUrlContent, LLMError};
use crate::text::{
    chars_of, contains, has_prefix, has_substring, is_ws, matches_at, push_chars, push_decimal,
    push_str, slice_range, str_eq, string_from_chars, trim_bounds, trim_chars, trim_seq,
};

verus! {

// ── JSON arguments ─────────────────────────────────────────────────────────

/// A JSON value (`serde_json::Value`), carried through unchanged.
#[verifier::external_type_specification]
#[verifier::external_body]
pub struct ExJsonValue(serde_json::Value);

/// Copies a JSON value (`Clone` of `serde_json::Value`).
pub assume_specification[ <serde_json::Value as Clone>::clone ](v: &serde_json::Value) -> serde_json::Value;

/// What `serde_json::from_str` makes of `text` as a JSON value: the value, or
/// `None` when `text` is not a JSON document that it accepts.
pub uninterp spec fn json_from_str(text: Seq<char>) -> Option<serde_json::Value>;

/// Parses `text` as a JSON value with `serde_json::from_str`; `None` when it is not JSON.
#[verifier::external_body]
pub(crate) fn parse_json(text: &str) -> (v: Option<serde_json::Value>)
    ensures
        v == json_from_str(text@),
{
    serde_json::from_str::<serde_json::Value>(text).ok()
}

// ── Conversation memory ────────────────────────────────────────────────────

/// Whether `m` is a plain text message with the given role and content.
pub open spec fn is_text_message(m: ChatMessage, role: Seq<char>, content: Seq<char>) -> bool {
    m.role@ == role && m.content@ == content && m.content_parts is None
}

/// History after trimming to at most `max` messages (0 = unlimited): the
/// oldest messages after the first (the system prompt) are dropped.
pub open spec fn trimmed(s: Seq<ChatMessage>, max: nat) -> Seq<ChatMessage> {
    if max == 0 || s.len() <= max {
        s
    } else {
        s.take(1) + s.skip(s.len() - (max - 1))
    }
}

/// In-memory conversation history of one session.
#[derive(Debug, Clone)]
pub struct ConversationMemory {
    max_messages: usize,
    messages: Vec<ChatMessage>,
}

impl ConversationMemory {
    /// The stored messages.
    pub closed spec fn msgs(&self) -> Seq<ChatMessage> {
        self.messages@
    }

    /// The configured cap (0 = unlimited).
    pub closed spec fn cap(&self) -> nat {
        self.max_messages as nat
    }

    /// A memory holding only the system prompt.
    pub fn new(system_prompt: &str, max_messages: usize) -> (m: Self)
        ensures
            m.cap() == max_messages,
            m.msgs().len() == 1,
            is_text_message(m.msgs()[0], "system"@, system_prompt@),
    {
        let mut messages: Vec<ChatMessage> = Vec::new();
        messages.push(ChatMessage::new("system", system_prompt));
        ConversationMemory { max_messages, messages }
    }

    fn trim_to_max(&mut self)
        ensures
            final(self).max_messages == old(self).max_messages,
            final(self).messages@ == trimmed(old(self).messages@, old(self).max_messages as nat),
    {
        if self.max_messages == 0 {
            return;
        }
        let ghost s = self.messages@;
        let ghost max = self.max_messages as int;
        if self.messages.len() <= self.max_messages {
            return;
        }
        assert(s =~= s.take(1) + s.skip(1));
        while self.messages.len() > self.max_messages
            invariant
                self.max_messages == max,
                max >= 1,
                s.len() > max,
                max <= self.messages@.len() <= s.len(),
                self.messages@ == s.take(1) + s.skip(s.len() - (self.messages@.len() - 1)),
            decreases self.messages@.len(),
        {
            let ghost before = self.messages@;
            self.messages.remove(1);
            proof {
                let k = before.len() - 1;
                let target = s.take(1) + s.skip(s.len() - (k - 1));
                assert forall|i: int| 0 <= i < self.messages@.len() implies self.messages@[i] == target[i] by {
                    if i > 0 {
                        assert(self.messages@[i] == before[i + 1]);
                    }
                }
                assert(self.messages@ =~= target);
            }
        }
    }

    /// Adds a user message, trims, and returns the full history for the next model call.
    pub fn add_user_message(&mut self, content: &str) -> (h: &[ChatMessage])
        ensures
            final(self).cap() == old(self).cap(),
            exists|m: ChatMessage| is_text_message(m, "user"@, content@) && final(self).msgs() == trimmed(
                old(self).msgs().push(m),
                old(self).cap(),
            ),
            h@ == final(self).msgs(),
    {
        let m = ChatMessage::new("user", content);
        let ghost gm = m;
        self.messages.push(m);
        self.trim_to_max();
        assert(is_text_message(gm, "user"@, content@));
        self.messages.as_slice()
    }

    /// Adds an assistant message and trims.
    pub fn add_assistant_message(&mut self, content: &str)
        ensures
            final(self).cap() == old(self).cap(),
            exists|m: ChatMessage| is_text_message(m, "assistant"@, content@) && final(self).msgs() == trimmed(
                old(self).msgs().push(m),
                old(self).cap(),
            ),
    {
        let m = ChatMessage::new("assistant", content);
        let ghost gm = m;
        self.messages.push(m);
        self.trim_to_max();
        assert(is_text_message(gm, "assistant"@, content@));
    }

    /// The current history.
    pub fn history(&self) -> (h: &[ChatMessage])
        ensures
            h@ == self.msgs(),
    {
        self.messages.as_slice()
    }

    /// A memory restored from an existing history (e.g. a checkpoint).
    pub fn from_history(messages: Vec<ChatMessage>, max_messages: usize) -> (m: Self)
        ensures
            m.msgs() == messages@,
            m.cap() == max_messages,
    {
        ConversationMemory { max_messages, messages }
    }

    /// Number of messages in the history.
    pub fn len(&self) -> (n: usize)
        ensures
            n == self.msgs().len(),
    {
        self.messages.len()
    }

    /// Whether the history is empty: nothing in it, or only the system prompt.
    pub fn is_empty(&self) -> (b: bool)
        ensures
            b == (self.msgs().len() == 0 || (self.msgs().len() == 1
                && self.msgs()[0].role@ == "system"@)),
    {
        let n = self.messages.len();
        if n == 0 {
            true
        } else if n == 1 {
            str_eq(self.messages[0].role.as_str(), "system")
        } else {
            false
        }
    }
}

/// Trimming never leaves more than the cap, and with a non-zero cap at least
/// one message survives from a non-empty history.
pub proof fn lemma_trim_respects_cap(s: Seq<ChatMessage>, max: nat)
    ensures
        max > 0 ==> trimmed(s, max).len() <= max,
        max == 0 ==> trimmed(s, max) == s,
        s.len() > 0 ==> trimmed(s, max).len() > 0,
{
}

/// Trimming keeps the first message (the system prompt) and the newest one.
pub proof fn lemma_trim_keeps_first_and_last(s: Seq<ChatMessage>, max: nat)
    requires
        s.len() > 0,
    ensures
        trimmed(s, max)[0] == s[0],
        (max != 1 || s.len() <= 1) ==> trimmed(s, max).last() == s.last(),
{
}

/// Adding a message keeps the system prompt in place: the first message of a
/// non-empty history is unchanged by `add_user_message`/`add_assistant_message`.
pub proof fn lemma_add_keeps_system_prompt(s: Seq<ChatMessage>, m: ChatMessage, max: nat)
    requires
        s.len() > 0,
    ensures
        trimmed(s.push(m), max)[0] == s[0],
        max != 1 ==> trimmed(s.push(m), max).last() == m,
        max > 0 ==> trimmed(s.push(m), max).len() <= max,
{
    lemma_trim_keeps_first_and_last(s.push(m), max);
}

// ── Lines ──────────────────────────────────────────────────────────────────

/// `l` without one trailing carriage return.
pub open spec fn strip_cr(l: Seq<char>) -> Seq<char> {
    if l.len() > 0 && l.last() == '\r' { l.drop_last() } else { l }
}

/// The lines of `s` as `str::lines` yields them: split at `\n`, a `\r` right
/// before the `\n` dropped, no empty line after a final `\n`.
pub open spec fn lines_of(s: Seq<char>) -> Seq<Seq<char>>
    decreases s.len(),
{
    if s.len() == 0 {
        seq![]
    } else {
        match first_occurrence(s, seq!['\n']) {
            None => seq![s],
            Some(i) => if 0 <= i < s.len() {
                seq![strip_cr(s.take(i))] + lines_of(s.skip(i + 1))
            } else {
                seq![s]
            },
        }
    }
}

/// Splits text into lines as `str::lines` does.
pub fn split_lines(s: &[char]) -> (ls: Vec<Vec<char>>)
    ensures
        ls@.len() == lines_of(s@).len(),
        forall|k: int| 0 <= k < ls@.len() ==> #[trigger] ls@[k]@ == lines_of(s@)[k],
{
    let mut out: Vec<Vec<char>> = Vec::new();
    let mut rest: Vec<char> = slice_range(s, 0, s.len());
    let nl: Vec<char> = vec!['\n'];
    assert(s@.subrange(0, s@.len() as int) =~= s@);
    while rest.len() > 0
        invariant
            nl@ == seq!['\n'],
            out@.len() + lines_of(rest@).len() == lines_of(s@).len(),
            forall|k: int| 0 <= k < out@.len() ==> #[trigger] out@[k]@ == lines_of(s@)[k],
            forall|k: int| 0 <= k < lines_of(rest@).len() ==> #[trigger] lines_of(rest@)[k] == lines_of(s@)[out@.len() + k],
        decreases rest@.len(),
    {
        let ghost before = rest@;
        let ghost n = out@.len();
        match find(&rest, &nl) {
            None => {
                proof {
                    assert(before.len() > 0);
                    assert(first_occurrence(before, nl@) is None);
                    assert(first_occurrence(before, seq!['\n']) is None);
                    assert(lines_of(before) == seq![before]);
                    assert(lines_of(before)[0] == lines_of(s@)[n as int]);
                }
                out.push(rest);
                proof {
                    assert(out@[n as int]@ == lines_of(s@)[n as int]);
                }
                rest = Vec::new();
                proof {
                    assert(lines_of(rest@) == Seq::<Seq<char>>::empty());
                }
            },
            Some(i) => {
                let mut line = slice_range(&rest, 0, i);
                if line.len() > 0 && line[line.len() - 1] == '\r' {
                    line.pop();
                }
                let tail = slice_range(&rest, i + 1, rest.len());
                proof {
                    assert(before.take(i as int) =~= before.subrange(0, i as int));
                    assert(line@ == strip_cr(before.take(i as int)));
                    assert(before.skip(i + 1) =~= tail@);
                    let ls = lines_of(before);
                    assert(ls == seq![strip_cr(before.take(i as int))] + lines_of(tail@));
                    assert(ls[0] == line@);
                    assert forall|k: int| 0 <= k < lines_of(tail@).len() implies #[trigger] lines_of(tail@)[k]
                        == lines_of(s@)[n + 1 + k] by {
                        assert(lines_of(tail@)[k] == ls[k + 1]);
                    }
                }
                out.push(line);
                rest = tail;
            },
        }
    }
    out
}

// ── Tool calls ─────────────────────────────────────────────────────────────

/// Index of the first line at or after `from` whose trimmed text starts with `p`.
pub open spec fn first_line_with_prefix(ls: Seq<Seq<char>>, from: int, p: Seq<char>) -> Option<int>
    decreases ls.len() - from,
{
    if from < 0 || from >= ls.len() {
        None
    } else if has_prefix(trim_seq(ls[from]), p) {
        Some(from)
    } else {
        first_line_with_prefix(ls, from + 1, p)
    }
}

/// The legacy `TOOL_CALL:`/`ARGS:` reading of a model response: the tool name
/// and the argument text, before the arguments are parsed as JSON. The first
/// `TOOL_CALL:` line names the tool (its name must not be empty); the first
/// later `ARGS:` line holds the arguments.
pub open spec fn legacy_tool_call_spec(content: Seq<char>) -> Option<(Seq<char>, Seq<char>)> {
    let ls = lines_of(content);
    match first_line_with_prefix(ls, 0, "TOOL_CALL:"@) {
        None => None,
        Some(i) => {
            let name = trim_seq(trim_seq(ls[i]).skip(10));
            if name.len() == 0 {
                None
            } else {
                match first_line_with_prefix(ls, i + 1, "ARGS:"@) {
                    None => None,
                    Some(j) => Some((name, trim_seq(trim_seq(ls[j]).skip(5)))),
                }
            }
        },
    }
}

/// The characters of each line.
pub open spec fn line_views(ls: Seq<Vec<char>>) -> Seq<Seq<char>> {
    ls.map_values(|l: Vec<char>| l@)
}

fn find_line_with_prefix(ls: &Vec<Vec<char>>, from: usize, p: &[char]) -> (r: Option<usize>)
    requires
        from <= ls@.len(),
    ensures
        match first_line_with_prefix(line_views(ls@), from as int, p@) {
            None => r is None,
            Some(i) => r matches Some(k) && k == i && i < ls@.len(),
        },
    decreases ls@.len() - from,
{
    if from >= ls.len() {
        return None;
    }
    let t = trim_chars(&ls[from]);
    let ghost views = line_views(ls@);
    assert(views[from as int] == ls@[from as int]@);
    let m = matches_at(&t, p, 0);
    if m {
        assert(t@.subrange(0, p@.len() as int) == p@);
        Some(from)
    } else {
        find_line_with_prefix(ls, from + 1, p)
    }
}

/// A line found by `first_line_with_prefix` is at or after `from` and starts
/// with the prefix once trimmed.
proof fn lemma_first_line_with_prefix(ls: Seq<Seq<char>>, from: int, p: Seq<char>)
    ensures
        first_line_with_prefix(ls, from, p) matches Some(i) ==> from <= i < ls.len() && has_prefix(
            trim_seq(ls[i]),
            p,
        ),
    decreases ls.len() - from,
{
    if from >= 0 && from < ls.len() && !has_prefix(trim_seq(ls[from]), p) {
        lemma_first_line_with_prefix(ls, from + 1, p);
    }
}

/// The lines of `content` as views.
proof fn lemma_line_views(ls: Seq<Vec<char>>, content: Seq<char>)
    requires
        ls.len() == lines_of(content).len(),
        forall|k: int| 0 <= k < ls.len() ==> #[trigger] ls[k]@ == lines_of(content)[k],
    ensures
        line_views(ls) == lines_of(content),
{
    assert(line_views(ls) =~= lines_of(content));
}

/// Finds a legacy tool call (`TOOL_CALL: name` then `ARGS: {json}`) in a
/// model response: the tool name and the argument text, before the arguments
/// are parsed; `None` unless both lines are present and the name is not empty.
pub fn legacy_tool_call(content: &str) -> (r: Option<(String, String)>)
    ensures
        match legacy_tool_call_spec(content@) {
            None => r is None,
            Some(p) => r matches Some(q) && q.0@ == p.0 && q.1@ == p.1,
        },
{
    let c = chars_of(content);
    let ls = split_lines(&c);
    proof {
        lemma_line_views(ls@, content@);
        reveal_strlit("TOOL_CALL:");
        reveal_strlit("ARGS:");
    }
    let tool_prefix = chars_of("TOOL_CALL:");
    let args_prefix = chars_of("ARGS:");
    let i = match find_line_with_prefix(&ls, 0, &tool_prefix) {
        None => return None,
        Some(i) => i,
    };
    proof {
        lemma_first_line_with_prefix(line_views(ls@), 0, tool_prefix@);
        assert(line_views(ls@)[i as int] == ls@[i as int]@);
    }
    let t = trim_chars(&ls[i]);
    let after = slice_range(&t, 10, t.len());
    assert(after@ == t@.skip(10));
    let name = trim_chars(&after);
    if name.len() == 0 {
        return None;
    }
    let nlines = ls.len();
    assert(i < nlines);
    let j = match find_line_with_prefix(&ls, i + 1, &args_prefix) {
        None => return None,
        Some(j) => j,
    };
    proof {
        lemma_first_line_with_prefix(line_views(ls@), i + 1, args_prefix@);
        assert(line_views(ls@)[j as int] == ls@[j as int]@);
    }
    let ta = trim_chars(&ls[j]);
    let after_a = slice_range(&ta, 5, ta.len());
    assert(after_a@ == ta@.skip(5));
    let args_text = trim_chars(&after_a);
    Some((string_from_chars(&name), string_from_chars(&args_text)))
}


/// Parses a legacy tool call (`TOOL_CALL: name` then `ARGS: {json}`) from a
/// model response; `None` unless both lines are present, the name is not empty
/// and the arguments are JSON.
pub fn parse_tool_call(content: &str) -> (r: Option<(String, serde_json::Value)>)
    ensures
        match legacy_tool_call_spec(content@) {
            None => r is None,
            Some(p) => if json_from_str(p.1) is Some {
                r matches Some(q) && q.0@ == p.0 && q.1 == json_from_str(p.1).unwrap()
            } else {
                r is None
            },
        },
{
    match legacy_tool_call(content) {
        None => None,
        Some((name, args_text)) => match parse_json(args_text.as_str()) {
            None => None,
            Some(v) => Some((name, v)),
        },
    }
}

/// Parses a structured (OpenAI tools) call from a response choice: the first
/// tool call's function name, with its arguments parsed as JSON.
pub fn parse_structured_tool_call(choice: &Choice) -> (r: Option<(String, serde_json::Value)>)
    ensures
        match choice.tool_calls {
            None => r is None,
            Some(calls) => if calls@.len() == 0 {
                r is None
            } else if json_from_str(calls@[0].function.arguments@) is Some {
                r matches Some(q) && q.0@ == calls@[0].function.name@
                    && q.1 == json_from_str(calls@[0].function.arguments@).unwrap()
            } else {
                r is None
            },
        },
{
    match &choice.tool_calls {
        None => None,
        Some(calls) => {
            if calls.len() == 0 {
                return None;
            }
            let first = &calls[0];
            match parse_json(first.function.arguments.as_str()) {
                None => None,
                Some(v) => Some((first.function.name.clone(), v)),
            }
        },
    }
}

// ── Final answers and observations ─────────────────────────────────────────

/// The final answer in a response that contains `FINAL:`: the text after the
/// first marker up to the next one (or the end), trimmed.
pub open spec fn final_answer_spec(content: Seq<char>) -> Seq<char> {
    match first_occurrence(content, "FINAL:"@) {
        None => seq![],
        Some(i) => {
            let after = content.skip(i + 6);
            match first_occurrence(after, "FINAL:"@) {
                None => trim_seq(after),
                Some(j) => trim_seq(after.take(j)),
            }
        },
    }
}

/// Extracts the final answer from a response.
pub fn final_answer(content: &str) -> (s: String)
    ensures
        s@ == final_answer_spec(content@),
{
    let c = chars_of(content);
    let marker = chars_of("FINAL:");
    proof {
        reveal_strlit("FINAL:");
    }
    assert(marker@.len() == 6);
    let n = c.len();
    match find(&c, &marker) {
        None => String::new(),
        Some(i) => {
            let after = slice_range(&c, i + 6, n);
            assert(after@ == c@.skip(i + 6));
            match find(&after, &marker) {
                None => string_from_chars(&trim_chars(&after)),
                Some(j) => {
                    let seg = slice_range(&after, 0, j);
                    assert(seg@ == after@.take(j as int));
                    string_from_chars(&trim_chars(&seg))
                },
            }
        },
    }
}

/// Where the search for `n` from `k` on stops: at the first match at or after
/// `k`, or nowhere when there is none.
proof fn lemma_first_occurrence_from_facts(s: Seq<char>, n: Seq<char>, k: int)
    requires
        0 <= k,
    ensures
        match first_occurrence_from(s, n, k) {
            Some(j) => k <= j && j + n.len() <= s.len() && s.subrange(j, j + n.len()) == n && forall|t: int|
                k <= t < j ==> #[trigger] s.subrange(t, t + n.len()) != n,
            None => forall|t: int| k <= t && t + n.len() <= s.len() ==> #[trigger] s.subrange(t, t + n.len()) != n,
        },
    decreases s.len() + 1 - k,
{
    if k + n.len() > s.len() {
    } else if s.subrange(k, k + n.len()) == n {
    } else {
        lemma_first_occurrence_from_facts(s, n, k + 1);
    }
}

/// The first `FINAL:` of `pre + "FINAL:" + rest` is the one after `pre` when
/// `pre` holds none.
proof fn lemma_marker_after(pre: Seq<char>, rest: Seq<char>)
    requires
        !has_substring(pre, "FINAL:"@),
    ensures
        first_occurrence(pre + "FINAL:"@ + rest, "FINAL:"@) == Some(pre.len() as int),
{
    reveal_strlit("FINAL:");
    let m = "FINAL:"@;
    let s = pre + m + rest;
    let p = pre.len() as int;
    lemma_first_occurrence_from_facts(s, m, 0);
    assert(s.subrange(p, p + 6) =~= m);
    match first_occurrence_from(s, m, 0) {
        Some(j) => {
            if j < p {
                if j + 6 <= p {
                    assert(pre.subrange(j, j + 6) =~= s.subrange(j, j + 6));
                } else {
                    assert(s.subrange(j, j + 6)[5] == s[j + 5]);
                    assert(s[j + 5] == m[j + 5 - p]);
                }
            }
        },
        None => {},
    }
}

/// No `FINAL:` is found in a text that holds none.
proof fn lemma_no_marker(seg: Seq<char>)
    requires
        !has_substring(seg, "FINAL:"@),
    ensures
        first_occurrence(seg, "FINAL:"@) is None,
{
    lemma_first_occurrence_from_facts(seg, "FINAL:"@, 0);
    match first_occurrence_from(seg, "FINAL:"@, 0) {
        Some(j) => {
            assert(seg.subrange(j, j + "FINAL:"@.len()) == "FINAL:"@);
        },
        None => {},
    }
}

/// Law: the final answer is the whole text after the first `FINAL:` marker
/// (the rest of the response when no other marker follows), trimmed of
/// surrounding whitespace, however many lines it spans.
pub proof fn lemma_final_answer_is_rest(pre: Seq<char>, answer: Seq<char>)
    requires
        !has_substring(pre, "FINAL:"@),
        !has_substring(answer, "FINAL:"@),
    ensures
        final_answer_spec(pre + "FINAL:"@ + answer) == trim_seq(answer),
{
    reveal_strlit("FINAL:");
    lemma_marker_after(pre, answer);
    let content = pre + "FINAL:"@ + answer;
    assert(content.skip(pre.len() as int + 6) =~= answer);
    lemma_no_marker(answer);
}

/// Law: with a second `FINAL:` marker, the final answer is the whole text
/// between the first two markers, trimmed; what follows the second is left out.
pub proof fn lemma_final_answer_between_markers(pre: Seq<char>, answer: Seq<char>, rest: Seq<char>)
    requires
        !has_substring(pre, "FINAL:"@),
        !has_substring(answer, "FINAL:"@),
    ensures
        final_answer_spec(pre + "FINAL:"@ + answer + "FINAL:"@ + rest) == trim_seq(answer),
{
    reveal_strlit("FINAL:");
    let content = pre + "FINAL:"@ + answer + "FINAL:"@ + rest;
    assert(content =~= pre + "FINAL:"@ + (answer + "FINAL:"@ + rest));
    lemma_marker_after(pre, answer + "FINAL:"@ + rest);
    let after = content.skip(pre.len() as int + 6);
    assert(after =~= answer + "FINAL:"@ + rest);
    lemma_marker_after(answer, rest);
    assert(after.take(answer.len() as int) =~= answer);
}

/// What a tool execution produced.
#[derive(Debug, Clone)]
pub struct ToolOutcome {
    /// Name of the tool that ran.
    pub tool_name: String,
    /// Whether it succeeded.
    pub success: bool,
    /// Its output.
    pub output: String,
    /// Its error message, if any.
    pub error: Option<String>,
    /// Its exit code, for commands.
    pub exit_code: Option<i32>,
    /// How long it ran, in milliseconds.
    pub duration_ms: Option<u64>,
}

/// The observation fed back to the model after a tool ran.
pub open spec fn observation_spec(o: ToolOutcome) -> Seq<char> {
    if o.success {
        "OBSERVATION: "@ + o.output@
    } else {
        "OBSERVATION: Tool failed with error: "@ + match o.error {
            Some(e) => e@,
            None => "unknown error"@,
        }
    }
}

/// Formats the observation for a tool outcome.
pub fn observation(o: &ToolOutcome) -> (s: String)
    ensures
        s@ == observation_spec(*o),
{
    let mut v: Vec<char> = Vec::new();
    if o.success {
        push_str(&mut v, "OBSERVATION: ");
        push_str(&mut v, o.output.as_str());
    } else {
        push_str(&mut v, "OBSERVATION: Tool failed with error: ");
        match &o.error {
            Some(e) => push_str(&mut v, e.as_str()),
            None => push_str(&mut v, "unknown error"),
        }
    }
    string_from_chars(&v)
}

// ── Checkpoints ────────────────────────────────────────────────────────────

/// The state of an agent loop saved between iterations so that a session
/// survives a restart.
#[derive(Debug, Clone)]
pub struct CheckpointState {
    /// Session identifier.
    pub session_id: String,
    /// The iteration the checkpoint was taken at.
    pub iteration: usize,
    /// Maximum iterations of the loop.
    pub max_iterations: usize,
    /// The conversation so far.
    pub messages: Vec<ChatMessage>,
    /// The prompt that started the session.
    pub initial_prompt: String,
    /// The system prompt of the session.
    pub system_prompt: String,
    /// Provider name.
    pub provider: String,
    /// Model name.
    pub model: String,
    /// Whether tools were enabled.
    pub enable_tools: bool,
    /// When the checkpoint was taken (RFC 3339).
    pub last_checkpoint: String,
}

impl CheckpointState {
    /// A checkpoint of the given loop state, stamped with the current time.
    pub fn new(
        session_id: String,
        iteration: usize,
        max_iterations: usize,
        messages: Vec<ChatMessage>,
        initial_prompt: &str,
        system_prompt: &str,
        provider: &str,
        model: &str,
        enable_tools: bool,
    ) -> (c: Self)
        ensures
            c.session_id == session_id,
            c.iteration == iteration,
            c.max_iterations == max_iterations,
            c.messages == messages,
            c.initial_prompt@ == initial_prompt@,
            c.system_prompt@ == system_prompt@,
            c.provider@ == provider@,
            c.model@ == model@,
            c.enable_tools == enable_tools,
    {
        CheckpointState {
            session_id,
            iteration,
            max_iterations,
            messages,
            initial_prompt: String::from_str(initial_prompt),
            system_prompt: String::from_str(system_prompt),
            provider: String::from_str(provider),
            model: String::from_str(model),
            enable_tools,
            last_checkpoint: crate::clock::now_rfc3339(),
        }
    }
}

fn copy_part(p: &ContentPart) -> (r: ContentPart)
    ensures
        r == *p,
{
    match p {
        ContentPart::Text { text } => ContentPart::Text { text: text.clone() },
        ContentPart::ImageUrl { image_url } => ContentPart::ImageUrl {
            image_url: ImageUrlContent { url: image_url.url.clone() },
        },
    }
}

/// `a` holds the same role, text and parts as `b`.
pub open spec fn same_message(a: ChatMessage, b: ChatMessage) -> bool {
    &&& a.role == b.role
    &&& a.content == b.content
    &&& match (a.content_parts, b.content_parts) {
        (None, None) => true,
        (Some(x), Some(y)) => x@ == y@,
        _ => false,
    }
}

/// A copy of a message.
pub fn copy_message(m: &ChatMessage) -> (r: ChatMessage)
    ensures
        same_message(r, *m),
{
    let parts = match &m.content_parts {
        None => None,
        Some(ps) => {
            let mut v: Vec<ContentPart> = Vec::new();
            let mut i: usize = 0;
            while i < ps.len()
                invariant
                    i <= ps@.len(),
                    v@ == ps@.take(i as int),
                decreases ps@.len() - i,
            {
                v.push(copy_part(&ps[i]));
                proof {
                    assert(v@ =~= ps@.take(i + 1));
                }
                i = i + 1;
            }
            proof {
                assert(ps@.take(ps@.len() as int) =~= ps@);
            }
            Some(v)
        },
    };
    ChatMessage { role: m.role.clone(), content: m.content.clone(), content_parts: parts }
}

/// The name of a session's checkpoint file inside the checkpoint directory.
pub fn checkpoint_file_name(session_id: &str) -> (n: String)
    ensures
        n@ == session_id@ + ".json"@,
{
    let mut v: Vec<char> = Vec::new();
    push_str(&mut v, session_id);
    push_str(&mut v, ".json");
    string_from_chars(&v)
}

/// The name of the temporary file a checkpoint is written to before it is
/// renamed into place.
pub fn checkpoint_temp_file_name(session_id: &str) -> (n: String)
    ensures
        n@ == session_id@ + ".json.tmp"@,
{
    let mut v: Vec<char> = Vec::new();
    push_str(&mut v, session_id);
    push_str(&mut v, ".json.tmp");
    string_from_chars(&v)
}

// ── The loop ───────────────────────────────────────────────────────────────

/// Plain settings of the agent loop.
#[derive(Debug, Clone)]
pub struct AgentLoopConfig {
    /// Maximum iterations before the loop stops.
    pub max_iterations: usize,
    /// Whether tool calls are executed.
    pub enable_tools: bool,
    /// Whether sensitive tool calls need human approval.
    pub require_approval: bool,
    /// Whether responses are screened for prompt injection.
    pub prompt_injection_protection: bool,
    /// Maximum session lifetime in seconds (0 = unlimited).
    pub token_lifetime_secs: u64,
    /// Treat any response that is not a tool call as the answer.
    pub no_final_required: bool,
    /// Directory for durable checkpoints.
    pub checkpoint_dir: Option<String>,
    /// Session identifier for checkpoints.
    pub session_id: Option<String>,
}

impl Default for AgentLoopConfig {
    fn default() -> (c: Self)
        ensures
            c.max_iterations == 10,
            !c.enable_tools,
            !c.require_approval,
            c.prompt_injection_protection,
            c.token_lifetime_secs == 0,
            c.no_final_required,
            c.checkpoint_dir is None,
            c.session_id is None,
    {
        AgentLoopConfig {
            max_iterations: 10,
            enable_tools: false,
            require_approval: false,
            prompt_injection_protection: true,
            token_lifetime_secs: 0,
            no_final_required: true,
            checkpoint_dir: None,
            session_id: None,
        }
    }
}

/// What the loop does before calling the model.
#[derive(Debug)]
pub enum BeforeCall {
    /// Call the model with the current history.
    CallModel,
    /// The loop is over, with this result.
    Stop(core::result::Result<String, RavenClawsError>),
}

/// Which parser found a tool call.
#[derive(Debug, Clone, Copy, PartialEq, Eq, Structural)]
pub enum ToolCallSource {
    /// A structured call in the response choice.
    Structured,
    /// A `TOOL_CALL:`/`ARGS:` call in the response text.
    Legacy,
}

/// What the loop does with a model response.
#[derive(Debug)]
pub enum AfterResponse {
    /// Execute this tool call, then report with [`AgentLoop::after_tool`].
    RunTool { source: ToolCallSource, name: String, args: serde_json::Value },
    /// The response was recorded; save a checkpoint for `iteration`; when
    /// `complete`, the loop ends with the response as its answer.
    Recorded { iteration: usize, complete: bool },
    /// The loop is over, with this result.
    Stop(core::result::Result<String, RavenClawsError>),
}

/// The answer when the iterations run out: the last message when the history
/// holds more than the first one, else an error.
pub open spec fn exhausted_ok(h: Seq<ChatMessage>) -> bool {
    h.len() > 1
}

/// State of a running agent loop.
#[derive(Debug)]
pub struct AgentLoop {
    config: AgentLoopConfig,
    memory: ConversationMemory,
    iteration: usize,
    pending_content: Option<String>,
}

impl AgentLoop {
    /// Well-formedness: the loop keeps its whole history (no cap).
    pub closed spec fn well_formed(&self) -> bool {
        self.memory.cap() == 0
    }

    /// The loop settings.
    pub closed spec fn settings(&self) -> AgentLoopConfig {
        self.config
    }

    /// The history so far.
    pub closed spec fn messages(&self) -> Seq<ChatMessage> {
        self.memory.msgs()
    }

    /// The current iteration.
    pub closed spec fn current_iteration(&self) -> nat {
        self.iteration as nat
    }

    /// Whether a legacy tool call is waiting for its result.
    pub closed spec fn awaiting_legacy_tool(&self) -> bool {
        self.pending_content is Some
    }

    /// The model response held back while its legacy tool call runs (empty
    /// when none is waiting); it is recorded together with the tool's result.
    pub closed spec fn pending_text(&self) -> Seq<char> {
        match self.pending_content {
            Some(c) => c@,
            None => seq![],
        }
    }

    /// A fresh loop: the system prompt and the initial prompt, iteration 0.
    pub fn start(system_prompt: &str, initial_prompt: &str, config: AgentLoopConfig) -> (l: Self)
        ensures
            l.well_formed(),
            l.settings() == config,
            l.current_iteration() == 0,
            l.messages().len() == 2,
            is_text_message(l.messages()[0], "system"@, system_prompt@),
            is_text_message(l.messages()[1], "user"@, initial_prompt@),
            !l.awaiting_legacy_tool(),
    {
        let mut memory = ConversationMemory::new(system_prompt, 0);
        memory.add_user_message(initial_prompt);
        AgentLoop { config, memory, iteration: 0, pending_content: None }
    }

    /// A loop resumed from a checkpoint taken at `checkpoint_iteration`.
    pub fn resume(messages: Vec<ChatMessage>, checkpoint_iteration: usize, config: AgentLoopConfig) -> (l: Self)
        requires
            checkpoint_iteration < usize::MAX,
        ensures
            l.well_formed(),
            l.settings() == config,
            l.current_iteration() == checkpoint_iteration + 1,
            l.messages() == messages@,
            !l.awaiting_legacy_tool(),
    {
        AgentLoop {
            config,
            memory: ConversationMemory::from_history(messages, 0),
            iteration: checkpoint_iteration + 1,
            pending_content: None,
        }
    }

    /// A loop resumed from a saved checkpoint.
    pub fn resume_from(checkpoint: CheckpointState, config: AgentLoopConfig) -> (l: Self)
        requires
            checkpoint.iteration < usize::MAX,
        ensures
            l.well_formed(),
            l.settings() == config,
            l.current_iteration() == checkpoint.iteration + 1,
            l.messages() == checkpoint.messages@,
            !l.awaiting_legacy_tool(),
    {
        AgentLoop::resume(checkpoint.messages, checkpoint.iteration, config)
    }

    /// The checkpoint to save after iteration `iteration` was recorded.
    pub fn checkpoint(
        &self,
        session_id: &str,
        iteration: usize,
        initial_prompt: &str,
        system_prompt: &str,
        provider: &str,
        model: &str,
    ) -> (c: CheckpointState)
        ensures
            c.session_id@ == session_id@,
            c.iteration == iteration,
            c.max_iterations == self.settings().max_iterations,
            c.messages@.len() == self.messages().len(),
            forall|i: int| 0 <= i < c.messages@.len() ==> same_message(#[trigger] c.messages@[i], self.messages()[i]),
            c.initial_prompt@ == initial_prompt@,
            c.system_prompt@ == system_prompt@,
            c.provider@ == provider@,
            c.model@ == model@,
            c.enable_tools == self.settings().enable_tools,
    {
        let h = self.memory.history();
        let mut messages: Vec<ChatMessage> = Vec::new();
        let mut i: usize = 0;
        while i < h.len()
            invariant
                i <= h@.len(),
                messages@.len() == i,
                forall|k: int| 0 <= k < i ==> same_message(#[trigger] messages@[k], h@[k]),
            decreases h@.len() - i,
        {
            messages.push(copy_message(&h[i]));
            i = i + 1;
        }
        CheckpointState::new(
            String::from_str(session_id),
            iteration,
            self.config.max_iterations,
            messages,
            initial_prompt,
            system_prompt,
            provider,
            model,
            self.config.enable_tools,
        )
    }

    /// The history to send to the model.
    pub fn history(&self) -> (h: &[ChatMessage])
        ensures
            h@ == self.messages(),
    {
        self.memory.history()
    }

    /// The current iteration.
    pub fn iteration(&self) -> (i: usize)
        ensures
            i == self.current_iteration(),
    {
        self.iteration
    }

    fn exhausted(&self) -> (r: core::result::Result<String, RavenClawsError>)
        ensures
            if exhausted_ok(self.messages()) {
                r matches Ok(s) && s == self.messages().last().content
            } else {
                r matches Err(RavenClawsError::CommandExecution(m)) && m@
                    == "Agent loop reached max iterations without completing the task"@
            },
    {
        let h = self.memory.history();
        if h.len() > 1 {
            Ok(h[h.len() - 1].content.clone())
        } else {
            Err(
                RavenClawsError::CommandExecution(
                    String::from_str("Agent loop reached max iterations without completing the task"),
                ),
            )
        }
    }

    /// Decides, before a model call, whether the loop goes on: it stops when
    /// the iterations are used up, when the session is older than its lifetime,
    /// or when fewer than 100 tokens of the budget remain.
    pub fn before_call(&self, elapsed_secs: u64, budget_remaining: Option<u32>) -> (d: BeforeCall)
        ensures
            self.current_iteration() >= self.settings().max_iterations ==> (d matches BeforeCall::Stop(r)
                && if exhausted_ok(self.messages()) {
                r matches Ok(s) && s == self.messages().last().content
            } else {
                r is Err
            }),
            self.current_iteration() < self.settings().max_iterations && self.settings().token_lifetime_secs > 0
                && elapsed_secs >= self.settings().token_lifetime_secs ==> (d matches BeforeCall::Stop(
                Err(RavenClawsError::SecurityViolation(m)),
            ) && m@ == "Session token expired after "@ + crate::text::decimal(elapsed_secs as nat)
                + " seconds (limit: "@ + crate::text::decimal(self.settings().token_lifetime_secs as nat)
                + "s)"@),
            self.current_iteration() < self.settings().max_iterations && !(self.settings().token_lifetime_secs > 0
                && elapsed_secs >= self.settings().token_lifetime_secs) ==> match budget_remaining {
                Some(r) if r < 100 => d matches BeforeCall::Stop(Err(RavenClawsError::SecurityViolation(m)))
                    && m@ == "Token budget exhausted"@,
                _ => d is CallModel,
            },
    {
        if self.iteration >= self.config.max_iterations {
            return BeforeCall::Stop(self.exhausted());
        }
        if self.config.token_lifetime_secs > 0 && elapsed_secs >= self.config.token_lifetime_secs {
            let mut v: Vec<char> = Vec::new();
            push_str(&mut v, "Session token expired after ");
            push_decimal(&mut v, elapsed_secs);
            push_str(&mut v, " seconds (limit: ");
            push_decimal(&mut v, self.config.token_lifetime_secs);
            push_str(&mut v, "s)");
            return BeforeCall::Stop(Err(RavenClawsError::SecurityViolation(string_from_chars(&v))));
        }
        match budget_remaining {
            Some(r) => {
                if r < 100 {
                    return BeforeCall::Stop(
                        Err(RavenClawsError::SecurityViolation(String::from_str("Token budget exhausted"))),
                    );
                }
            },
            None => {},
        }
        BeforeCall::CallModel
    }

    /// The model call failed (after any fallback): the loop ends with that error.
    pub fn model_failed(&self, e: LLMError) -> (r: core::result::Result<String, RavenClawsError>)
        ensures
            r matches Err(RavenClawsError::Llm(inner)) && inner == e,
    {
        Err(RavenClawsError::Llm(e))
    }

    /// Decides what to do with a model response. `injection` is the reason
    /// when the response was flagged as a prompt injection; `structured` is the
    /// structured tool call of the response, if any.
    pub fn after_response(
        &mut self,
        content: &str,
        injection: Option<String>,
        structured: Option<(String, serde_json::Value)>,
    ) -> (d: AfterResponse)
        requires
            old(self).well_formed(),
            !old(self).awaiting_legacy_tool(),
            old(self).current_iteration() < old(self).settings().max_iterations,
        ensures
            final(self).well_formed(),
            final(self).settings() == old(self).settings(),
            match injection {
                Some(reason) => d matches AfterResponse::Stop(Err(RavenClawsError::SecurityViolation(m)))
                    && m@ == "LLM response blocked: potential prompt injection ("@ + reason@ + ")"@
                    && final(self).messages() == old(self).messages(),
                None => if old(self).settings().enable_tools && structured is Some {
                    d matches AfterResponse::RunTool { source, name, args } && source
                        == ToolCallSource::Structured && name == structured.unwrap().0
                        && args == structured.unwrap().1
                        && final(self).messages() == old(self).messages()
                        && !final(self).awaiting_legacy_tool()
                } else if has_substring(content@, "FINAL:"@) {
                    (d matches AfterResponse::Stop(Ok(s)) && s@ == final_answer_spec(content@))
                        && exists|m: ChatMessage| is_text_message(m, "assistant"@, content@)
                        && final(self).messages() == trimmed(old(self).messages().push(m), 0)
                } else if old(self).settings().enable_tools && legacy_tool_call_spec(content@) is Some
                    && json_from_str(legacy_tool_call_spec(content@).unwrap().1) is Some {
                    d matches AfterResponse::RunTool { source, name, args } && source
                        == ToolCallSource::Legacy && name@ == legacy_tool_call_spec(content@).unwrap().0
                        && args == json_from_str(legacy_tool_call_spec(content@).unwrap().1).unwrap()
                        && final(self).messages() == old(self).messages()
                        && final(self).awaiting_legacy_tool() && final(self).pending_text() == content@
                } else {
                    d matches AfterResponse::Recorded { iteration, complete }
                        && iteration == old(self).current_iteration()
                        && complete == old(self).settings().no_final_required
                        && exists|m: ChatMessage| is_text_message(m, "assistant"@, content@)
                        && final(self).messages() == trimmed(old(self).messages().push(m), 0)
                        && final(self).current_iteration() == old(self).current_iteration() + 1
                },
            },
    {
        match injection {
            Some(reason) => {
                let mut v: Vec<char> = Vec::new();
                push_str(&mut v, "LLM response blocked: potential prompt injection (");
                push_str(&mut v, reason.as_str());
                push_str(&mut v, ")");
                return AfterResponse::Stop(Err(RavenClawsError::SecurityViolation(string_from_chars(&v))));
            },
            None => {},
        }
        if self.config.enable_tools {
            match structured {
                Some((name, args)) => {
                    return AfterResponse::RunTool { source: ToolCallSource::Structured, name, args };
                },
                None => {},
            }
        }
        if crate::text::str_contains(content, "FINAL:") {
            let answer = final_answer(content);
            self.memory.add_assistant_message(content);
            return AfterResponse::Stop(Ok(answer));
        }
        if self.config.enable_tools {
            match parse_tool_call(content) {
                Some((name, args)) => {
                    self.pending_content = Some(String::from_str(content));
                    return AfterResponse::RunTool { source: ToolCallSource::Legacy, name, args };
                },
                None => {},
            }
        }
        self.memory.add_assistant_message(content);
        let it = self.iteration;
        self.iteration = self.iteration + 1;
        AfterResponse::Recorded { iteration: it, complete: self.config.no_final_required }
    }

    /// Records what a tool produced and moves to the next iteration: for a
    /// legacy call the response is recorded first, then the observation.
    pub fn after_tool(&mut self, outcome: &ToolOutcome)
        requires
            old(self).well_formed(),
            old(self).current_iteration() < old(self).settings().max_iterations,
        ensures
            final(self).well_formed(),
            final(self).settings() == old(self).settings(),
            final(self).current_iteration() == old(self).current_iteration() + 1,
            !final(self).awaiting_legacy_tool(),
            !old(self).awaiting_legacy_tool() ==> exists|m: ChatMessage|
                is_text_message(m, "user"@, observation_spec(*outcome)) && final(self).messages()
                    == trimmed(old(self).messages().push(m), 0),
            old(self).awaiting_legacy_tool() ==> final(self).messages().len() == old(self).messages().len() + 2
                && final(self).messages().subrange(0, old(self).messages().len() as int) == old(self).messages()
                && is_text_message(
                final(self).messages()[old(self).messages().len() as int],
                "assistant"@,
                old(self).pending_text(),
            ) && is_text_message(final(self).messages().last(), "user"@, observation_spec(*outcome)),
    {
        let obs = observation(outcome);
        match self.pending_content.take() {
            Some(content) => {
                self.memory.add_assistant_message(content.as_str());
                self.memory.add_user_message(obs.as_str());
            },
            None => {
                self.memory.add_user_message(obs.as_str());
            },
        }
        self.iteration = self.iteration + 1;
    }
}

/// One model round that does not end the loop: the call was allowed (the
/// iterations were not used up), and the response, with the tool run it asked
/// for if any, moved the loop to the next iteration under the same settings.
pub open spec fn model_round(a: AgentLoop, b: AgentLoop) -> bool {
    &&& a.current_iteration() < a.settings().max_iterations
    &&& b.current_iteration() == a.current_iteration() + 1
    &&& b.settings() == a.settings()
}

/// Law: a run of model rounds never goes past the configured maximum, so a
/// loop makes at most `max_iterations` model calls in all (one more call
/// always ends it).
pub proof fn lemma_model_rounds_bounded(ls: Seq<AgentLoop>)
    requires
        ls.len() >= 1,
        forall|i: int| 0 <= i < ls.len() - 1 ==> model_round(#[trigger] ls[i], ls[i + 1]),
    ensures
        forall|i: int| 0 <= i < ls.len() ==> #[trigger] ls[i].current_iteration() == ls[0].current_iteration() + i
            && ls[i].settings() == ls[0].settings(),
        ls.len() > 1 ==> ls[0].current_iteration() + (ls.len() - 1) <= ls[0].settings().max_iterations,
    decreases ls.len(),
{
    if ls.len() > 1 {
        let prefix = ls.drop_last();
        assert forall|i: int| 0 <= i < prefix.len() - 1 implies model_round(#[trigger] prefix[i], prefix[i + 1]) by {
            assert(model_round(ls[i], ls[i + 1]));
        }
        lemma_model_rounds_bounded(prefix);
        let n = ls.len() - 1;
        assert(model_round(ls[n - 1], ls[n]));
        assert(prefix[n - 1] == ls[n - 1]);
        assert(ls[n - 1].current_iteration() == ls[0].current_iteration() + (n - 1));
        assert forall|i: int| 0 <= i < ls.len() implies #[trigger] ls[i].current_iteration()
            == ls[0].current_iteration() + i && ls[i].settings() == ls[0].settings() by {
            if i < n {
                assert(prefix[i] == ls[i]);
            }
        }
    }
}

} // verus!
