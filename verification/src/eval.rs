//! Evaluation of agent responses: the assertions an eval task makes about a
//! response and the trace of the run, and how each is checked and reported.
//!
//! Running the agent, timing, scoring with weights and report formatting are
//! done by the application.

use vstd::prelude::*;
use vstd::utf8::encode_utf8;
use crate::agent::{AgentLoopConfig, ExJsonValue};
use crate::text::{
    chars_of, decimal, has_substring, push_chars, push_decimal, push_str, slice_range, str_contains, str_eq,
    string_from_chars,
};

verus! {

// ── Regular expressions ────────────────────────────────────────────────────

/// The error text of `regex_lite::Regex::new` on `pattern`, or `None` when
/// the pattern compiles.
pub uninterp spec fn regex_compile_error(pattern: Seq<char>) -> Option<Seq<char>>;

/// Compiles `pattern` with `regex_lite::Regex::new` and reports its error
/// text (`Display`), if any.
#[verifier::external_body]
fn regex_error(pattern: &str) -> (e: Option<String>)
    ensures
        match regex_compile_error(pattern@) {
            None => e is None,
            Some(m) => e matches Some(s) && s@ == m,
        },
{
    match regex_lite::Regex::new(pattern) {
        Ok(_) => None,
        Err(err) => Some(err.to_string()),
    }
}

/// Whether the compiled `pattern` matches somewhere in `text`
/// (`regex_lite::Regex::is_match`).
pub uninterp spec fn regex_is_match(pattern: Seq<char>, text: Seq<char>) -> bool;

/// Tests `text` against `pattern` (`Regex::new`, then `Regex::is_match`).
#[verifier::external_body]
fn regex_match(pattern: &str, text: &str) -> (b: bool)
    requires
        regex_compile_error(pattern@) is None,
    ensures
        b == regex_is_match(pattern@, text@),
{
    match regex_lite::Regex::new(pattern) {
        Ok(re) => re.is_match(text),
        Err(_) => false,
    }
}

// ── Assertions and traces ──────────────────────────────────────────────────

/// What an eval task asserts about a response.
#[derive(Debug, Clone)]
pub enum Assertion {
    /// The response contains this text.
    Contains(String),
    /// The response does not contain this text.
    NotContains(String),
    /// The response is exactly this text.
    Exact(String),
    /// The response matches this regular expression.
    Regex(String),
    /// The response is not empty.
    NonEmpty,
    /// The response has at least this many characters.
    MinLength(usize),
    /// The response has at most this many characters.
    MaxLength(usize),
    /// A tool with this name was called during the run.
    ToolCalled(String),
    /// No tool with this name was called during the run.
    ToolNotCalled(String),
}

/// The outcome of one assertion.
#[derive(Debug, Clone)]
pub struct AssertionResult {
    /// The assertion, as text.
    pub assertion: String,
    /// Whether it held.
    pub passed: bool,
    /// What was found.
    pub details: String,
}

/// Kind of a trace step.
#[derive(Debug, Clone, Copy, PartialEq, Eq, Structural)]
pub enum StepType {
    /// A model thought or response.
    Thought,
    /// A tool call.
    ToolCall,
    /// A tool result.
    Observation,
    /// The final answer.
    Final,
    /// An error.
    Error,
}

/// One step of a run.
#[derive(Debug, Clone)]
pub struct TraceStep {
    /// Step number (0-based).
    pub number: usize,
    /// Kind of step.
    pub step_type: StepType,
    /// Its content.
    pub content: String,
    /// Its duration in milliseconds.
    pub duration_ms: u64,
}

/// One model call of a run.
#[derive(Debug, Clone)]
pub struct LlmCallTrace {
    /// Iteration number.
    pub iteration: usize,
    /// Provider name.
    pub provider: String,
    /// Model name.
    pub model: String,
    /// Prompt tokens, if reported.
    pub prompt_tokens: Option<u32>,
    /// Completion tokens, if reported.
    pub completion_tokens: Option<u32>,
    /// Duration in milliseconds.
    pub duration_ms: u64,
    /// Start of the response.
    pub response_preview: String,
}

/// One tool call of a run.
#[derive(Debug, Clone)]
pub struct ToolCallTrace {
    /// Iteration number.
    pub iteration: usize,
    /// Tool name.
    pub tool_name: String,
    /// Arguments (JSON).
    pub arguments: serde_json::Value,
    /// Whether the tool succeeded.
    pub success: bool,
    /// Start of the output.
    pub output_preview: String,
    /// Duration in milliseconds.
    pub duration_ms: u64,
}

/// The full trace of one run.
#[derive(Debug, Clone)]
pub struct RunTrace {
    /// Task name.
    pub task_name: String,
    /// Start (RFC 3339).
    pub started_at: String,
    /// End (RFC 3339).
    pub ended_at: String,
    /// Duration in milliseconds.
    pub duration_ms: u64,
    /// Iterations used.
    pub iterations: usize,
    /// Steps, in order.
    pub steps: Vec<TraceStep>,
    /// Model calls.
    pub llm_calls: Vec<LlmCallTrace>,
    /// Tool calls.
    pub tool_calls: Vec<ToolCallTrace>,
    /// Final response.
    pub final_response: String,
}

/// The names of the tools called in a run, in order.
pub open spec fn called_tools(trace: Option<RunTrace>) -> Seq<Seq<char>> {
    match trace {
        Some(t) => tool_names(t.tool_calls@),
        None => seq![],
    }
}

/// The names of the given tool calls, in order.
pub open spec fn tool_names(calls: Seq<ToolCallTrace>) -> Seq<Seq<char>> {
    calls.map_values(|c: ToolCallTrace| c.tool_name@)
}

/// Names joined with `", "`.
pub open spec fn join_names(names: Seq<Seq<char>>) -> Seq<char>
    decreases names.len(),
{
    if names.len() == 0 {
        seq![]
    } else if names.len() == 1 {
        names[0]
    } else {
        join_names(names.drop_last()) + ", "@ + names.last()
    }
}

/// The byte length of a response (its UTF-8 encoding), as `str::len` reports it.
pub open spec fn byte_len(s: Seq<char>) -> nat {
    (encode_utf8(s).len() as usize) as nat
}

/// The first `n` characters of `s` (all of them when shorter).
pub open spec fn prefix_chars(s: Seq<char>, n: nat) -> Seq<char> {
    if s.len() <= n { s } else { s.take(n as int) }
}

/// Whether `assertion` holds of `response`, given the tools called (`None`
/// when there is no trace).
pub open spec fn assertion_holds(response: Seq<char>, assertion: Assertion, trace: Option<RunTrace>) -> bool {
    match assertion {
        Assertion::Contains(p) => has_substring(response, p@),
        Assertion::NotContains(p) => !has_substring(response, p@),
        Assertion::Exact(e) => response == e@,
        Assertion::Regex(p) => regex_compile_error(p@) is None && regex_is_match(p@, response),
        Assertion::NonEmpty => response.len() > 0,
        Assertion::MinLength(n) => response.len() >= n,
        Assertion::MaxLength(n) => response.len() <= n,
        Assertion::ToolCalled(t) => called_tools(trace).contains(t@),
        Assertion::ToolNotCalled(t) => !called_tools(trace).contains(t@),
    }
}

/// The text of an assertion.
pub open spec fn assertion_label(assertion: Assertion) -> Seq<char> {
    match assertion {
        Assertion::Contains(p) => "contains: "@ + p@,
        Assertion::NotContains(p) => "not_contains: "@ + p@,
        Assertion::Exact(e) => "exact: "@ + e@,
        Assertion::Regex(p) => "regex: "@ + p@,
        Assertion::NonEmpty => "non_empty"@,
        Assertion::MinLength(n) => "min_length: "@ + decimal(n as nat),
        Assertion::MaxLength(n) => "max_length: "@ + decimal(n as nat),
        Assertion::ToolCalled(t) => "tool_called: "@ + t@,
        Assertion::ToolNotCalled(t) => "tool_not_called: "@ + t@,
    }
}

/// What the check of an assertion reports.
pub open spec fn assertion_details(response: Seq<char>, assertion: Assertion, trace: Option<RunTrace>) -> Seq<char> {
    let ok = assertion_holds(response, assertion, trace);
    match assertion {
        Assertion::Contains(p) => if ok {
            "Response contains '"@ + p@ + "'"@
        } else {
            "Response does not contain '"@ + p@ + "'"@
        },
        Assertion::NotContains(p) => if ok {
            "Response does not contain '"@ + p@ + "'"@
        } else {
            "Response contains '"@ + p@ + "'"@
        },
        Assertion::Exact(e) => if ok {
            "Response matches exactly"@
        } else {
            "Expected '"@ + e@ + "', got '"@ + prefix_chars(response, 100) + "'"@
        },
        Assertion::Regex(p) => match regex_compile_error(p@) {
            Some(err) => "Invalid regex pattern: "@ + err,
            None => if ok {
                "Response matches pattern '"@ + p@ + "'"@
            } else {
                "Response does not match pattern '"@ + p@ + "'"@
            },
        },
        Assertion::NonEmpty => if ok {
            "Response is non-empty ("@ + decimal(byte_len(response)) + " chars)"@
        } else {
            "Response is empty"@
        },
        Assertion::MinLength(n) => "Response length "@ + decimal(response.len()) + (if ok {
            " >= "@
        } else {
            " < "@
        }) + decimal(n as nat),
        Assertion::MaxLength(n) => "Response length "@ + decimal(response.len()) + (if ok {
            " <= "@
        } else {
            " > "@
        }) + decimal(n as nat),
        Assertion::ToolCalled(t) => if ok {
            "Tool '"@ + t@ + "' was called"@
        } else if called_tools(trace).len() == 0 {
            "Tool '"@ + t@ + "' was not called (no tools were called)"@
        } else {
            "Tool '"@ + t@ + "' was not called (called: "@ + join_names(called_tools(trace)) + ")"@
        },
        Assertion::ToolNotCalled(t) => if ok {
            "Tool '"@ + t@ + "' was not called"@
        } else {
            "Tool '"@ + t@ + "' was called but should not have been"@
        },
    }
}

/// The result of checking `assertion` against `response`.
pub open spec fn checked(r: AssertionResult, response: Seq<char>, assertion: Assertion, trace: Option<RunTrace>) -> bool {
    &&& r.passed == assertion_holds(response, assertion, trace)
    &&& r.assertion@ == assertion_label(assertion)
    &&& r.details@ == assertion_details(response, assertion, trace)
}

// ── Checking ───────────────────────────────────────────────────────────────

fn tool_was_called(trace: Option<&RunTrace>, name: &str) -> (b: bool)
    ensures
        b == called_tools(match trace {
            Some(t) => Some(*t),
            None => None,
        }).contains(name@),
{
    match trace {
        None => false,
        Some(t) => {
            let ghost names = called_tools(Some(*t));
            let mut i: usize = 0;
            while i < t.tool_calls.len()
                invariant
                    i <= t.tool_calls@.len(),
                    names == tool_names(t.tool_calls@),
                    names == called_tools(match trace {
                        Some(x) => Some(*x),
                        None => None,
                    }),
                    forall|k: int| 0 <= k < i ==> names[k] != name@,
                decreases t.tool_calls@.len() - i,
            {
                if str_eq(t.tool_calls[i].tool_name.as_str(), name) {
                    assert(names.len() == t.tool_calls@.len());
                    assert(names[i as int] == name@);
                    assert(names.contains(name@));
                    return true;
                }
                i = i + 1;
            }
            assert forall|k: int| 0 <= k < names.len() implies names[k] != name@ by {}
            false
        },
    }
}

fn push_joined_names(v: &mut Vec<char>, t: &RunTrace)
    ensures
        final(v)@ == old(v)@ + join_names(called_tools(Some(*t))),
{
    let ghost names = called_tools(Some(*t));
    let mut i: usize = 0;
    while i < t.tool_calls.len()
        invariant
            i <= t.tool_calls@.len(),
            names == tool_names(t.tool_calls@),
            v@ == old(v)@ + join_names(names.take(i as int)),
        decreases t.tool_calls@.len() - i,
    {
        let ghost before = v@;
        if i > 0 {
            push_str(v, ", ");
        }
        push_str(v, t.tool_calls[i].tool_name.as_str());
        proof {
            let p = names.take(i + 1);
            assert(p.drop_last() == names.take(i as int));
            assert(p.last() == t.tool_calls@[i as int].tool_name@);
            if i == 0 {
                assert(p.len() == 1);
                assert(join_names(names.take(0)) == Seq::<char>::empty());
            }
        }
        i = i + 1;
    }
    proof {
        assert(names.take(names.len() as int) == names);
    }
}

fn push_quoted_name(v: &mut Vec<char>, name: &str)
    ensures
        final(v)@ == old(v)@ + "Tool '"@ + name@,
{
    push_str(v, "Tool '");
    push_str(v, name);
}

/// Checks one assertion against a response and the run's trace.
pub fn check_single_assertion(response: &str, assertion: &Assertion, run_trace: Option<&RunTrace>) -> (r:
    AssertionResult)
    ensures
        checked(r, response@, *assertion, match run_trace {
            Some(t) => Some(*t),
            None => None,
        }),
{
    let ghost trace = match run_trace {
        Some(t) => Some(*t),
        None => None,
    };
    let mut label: Vec<char> = Vec::new();
    let mut details: Vec<char> = Vec::new();
    let passed: bool;
    match assertion {
        Assertion::Contains(p) => {
            push_str(&mut label, "contains: ");
            push_str(&mut label, p.as_str());
            passed = str_contains(response, p.as_str());
            if passed {
                push_str(&mut details, "Response contains '");
            } else {
                push_str(&mut details, "Response does not contain '");
            }
            push_str(&mut details, p.as_str());
            push_str(&mut details, "'");
            proof {
                assert(passed == assertion_holds(response@, *assertion, trace));
                assert(details@ == assertion_details(response@, *assertion, trace));
            }
        },
        Assertion::NotContains(p) => {
            push_str(&mut label, "not_contains: ");
            push_str(&mut label, p.as_str());
            passed = !str_contains(response, p.as_str());
            if passed {
                push_str(&mut details, "Response does not contain '");
            } else {
                push_str(&mut details, "Response contains '");
            }
            push_str(&mut details, p.as_str());
            push_str(&mut details, "'");
            proof {
                assert(passed == assertion_holds(response@, *assertion, trace));
                assert(details@ == assertion_details(response@, *assertion, trace));
            }
        },
        Assertion::Exact(e) => {
            push_str(&mut label, "exact: ");
            push_str(&mut label, e.as_str());
            let t = chars_of(response);
            passed = str_eq(response, e.as_str());
            if passed {
                push_str(&mut details, "Response matches exactly");
            } else {
                push_str(&mut details, "Expected '");
                push_str(&mut details, e.as_str());
                push_str(&mut details, "', got '");
                let n = if t.len() <= 100 { t.len() } else { 100 };
                let head = slice_range(&t, 0, n);
                push_chars(&mut details, &head);
                push_str(&mut details, "'");
            }
            proof {
                assert(passed == assertion_holds(response@, *assertion, trace));
                assert(details@ == assertion_details(response@, *assertion, trace));
            }
        },
        Assertion::Regex(p) => {
            push_str(&mut label, "regex: ");
            push_str(&mut label, p.as_str());
            match regex_error(p.as_str()) {
                Some(err) => {
                    passed = false;
                    push_str(&mut details, "Invalid regex pattern: ");
                    push_str(&mut details, err.as_str());
                },
                None => {
                    passed = regex_match(p.as_str(), response);
                    if passed {
                        push_str(&mut details, "Response matches pattern '");
                    } else {
                        push_str(&mut details, "Response does not match pattern '");
                    }
                    push_str(&mut details, p.as_str());
                    push_str(&mut details, "'");
                },
            }
            proof {
                assert(passed == assertion_holds(response@, *assertion, trace));
                assert(details@ == assertion_details(response@, *assertion, trace));
            }
        },
        Assertion::NonEmpty => {
            push_str(&mut label, "non_empty");
            passed = !response.is_empty();
            if passed {
                push_str(&mut details, "Response is non-empty (");
                push_decimal(&mut details, response.len() as u64);
                push_str(&mut details, " chars)");
            } else {
                push_str(&mut details, "Response is empty");
            }
            proof {
                assert(passed == assertion_holds(response@, *assertion, trace));
                assert(details@ == assertion_details(response@, *assertion, trace));
            }
        },
        Assertion::MinLength(min) => {
            push_str(&mut label, "min_length: ");
            push_decimal(&mut label, *min as u64);
            let rc = chars_of(response);
            let len = rc.len();
            passed = len >= *min;
            push_str(&mut details, "Response length ");
            push_decimal(&mut details, len as u64);
            if passed {
                push_str(&mut details, " >= ");
            } else {
                push_str(&mut details, " < ");
            }
            push_decimal(&mut details, *min as u64);
            proof {
                assert(passed == assertion_holds(response@, *assertion, trace));
                assert(details@ == assertion_details(response@, *assertion, trace));
            }
        },
        Assertion::MaxLength(max) => {
            push_str(&mut label, "max_length: ");
            push_decimal(&mut label, *max as u64);
            let rc = chars_of(response);
            let len = rc.len();
            passed = len <= *max;
            push_str(&mut details, "Response length ");
            push_decimal(&mut details, len as u64);
            if passed {
                push_str(&mut details, " <= ");
            } else {
                push_str(&mut details, " > ");
            }
            push_decimal(&mut details, *max as u64);
            proof {
                assert(passed == assertion_holds(response@, *assertion, trace));
                assert(details@ == assertion_details(response@, *assertion, trace));
            }
        },
        Assertion::ToolCalled(name) => {
            push_str(&mut label, "tool_called: ");
            push_str(&mut label, name.as_str());
            passed = tool_was_called(run_trace, name.as_str());
            push_quoted_name(&mut details, name.as_str());
            if passed {
                push_str(&mut details, "' was called");
            } else {
                match run_trace {
                    Some(t) => {
                        if t.tool_calls.len() == 0 {
                            push_str(&mut details, "' was not called (no tools were called)");
                        } else {
                            push_str(&mut details, "' was not called (called: ");
                            push_joined_names(&mut details, t);
                            push_str(&mut details, ")");
                        }
                    },
                    None => push_str(&mut details, "' was not called (no tools were called)"),
                }
            }
            proof {
                assert(passed == assertion_holds(response@, *assertion, trace));
                assert(details@ == assertion_details(response@, *assertion, trace));
            }
        },
        Assertion::ToolNotCalled(name) => {
            push_str(&mut label, "tool_not_called: ");
            push_str(&mut label, name.as_str());
            passed = !tool_was_called(run_trace, name.as_str());
            push_quoted_name(&mut details, name.as_str());
            if passed {
                push_str(&mut details, "' was not called");
            } else {
                push_str(&mut details, "' was called but should not have been");
            }
            proof {
                assert(passed == assertion_holds(response@, *assertion, trace));
                assert(details@ == assertion_details(response@, *assertion, trace));
            }
        },
    }
    proof {
        assert(passed == assertion_holds(response@, *assertion, trace));
        assert(label@ == assertion_label(*assertion));
        assert(details@ == assertion_details(response@, *assertion, trace));
    }
    AssertionResult { assertion: string_from_chars(&label), passed, details: string_from_chars(&details) }
}

/// The number of assertions that hold.
pub open spec fn holding_count(response: Seq<char>, assertions: Seq<Assertion>, trace: Option<RunTrace>) -> nat
    decreases assertions.len(),
{
    if assertions.len() == 0 {
        0
    } else {
        holding_count(response, assertions.drop_last(), trace) + if assertion_holds(
            response,
            assertions.last(),
            trace,
        ) {
            1nat
        } else {
            0nat
        }
    }
}

/// Checks every assertion; returns the results in order, the number that
/// held and the number that failed.
pub fn check_assertions(response: &str, assertions: &[Assertion], run_trace: Option<&RunTrace>) -> (r: (
    Vec<AssertionResult>,
    usize,
    usize,
))
    ensures
        ({
            let trace = match run_trace {
                Some(t) => Some(*t),
                None => None,
            };
            &&& r.0@.len() == assertions@.len()
            &&& forall|i: int| 0 <= i < assertions@.len() ==> checked(#[trigger] r.0@[i], response@, assertions@[i], trace)
            &&& r.1 == holding_count(response@, assertions@, trace)
            &&& r.1 + r.2 == assertions@.len()
        }),
{
    let ghost trace = match run_trace {
        Some(t) => Some(*t),
        None => None,
    };
    let mut results: Vec<AssertionResult> = Vec::new();
    let mut passed: usize = 0;
    let mut failed: usize = 0;
    let mut i: usize = 0;
    while i < assertions.len()
        invariant
            i <= assertions@.len(),
            trace == (match run_trace {
                Some(t) => Some(*t),
                None => None,
            }),
            results@.len() == i,
            forall|k: int| 0 <= k < i ==> checked(#[trigger] results@[k], response@, assertions@[k], trace),
            passed == holding_count(response@, assertions@.take(i as int), trace),
            passed + failed == i,
        decreases assertions@.len() - i,
    {
        let result = check_single_assertion(response, &assertions[i], run_trace);
        proof {
            let p = assertions@.take(i + 1);
            assert(p.drop_last() == assertions@.take(i as int));
            assert(p.last() == assertions@[i as int]);
        }
        if result.passed {
            passed = passed + 1;
        } else {
            failed = failed + 1;
        }
        results.push(result);
        i = i + 1;
    }
    proof {
        assert(assertions@.take(assertions@.len() as int) == assertions@);
    }
    (results, passed, failed)
}

/// Whether a task passed: no assertion failed and the response is not empty.
pub fn task_passed(assertions_failed: usize, final_response: &str) -> (b: bool)
    ensures
        b == (assertions_failed == 0 && final_response@.len() > 0),
{
    assertions_failed == 0 && !final_response.is_empty()
}

// ── Running a task ─────────────────────────────────────────────────────────

/// The agent-loop settings of an eval task: tools on, no approval prompt,
/// injection screening on, no session lifetime, an explicit `FINAL:` needed.
pub fn eval_agent_config(max_iterations: usize) -> (c: AgentLoopConfig)
    ensures
        c.max_iterations == max_iterations,
        c.enable_tools,
        !c.require_approval,
        c.prompt_injection_protection,
        c.token_lifetime_secs == 0,
        !c.no_final_required,
        c.checkpoint_dir is None,
        c.session_id is None,
{
    AgentLoopConfig {
        max_iterations,
        enable_tools: true,
        require_approval: false,
        prompt_injection_protection: true,
        token_lifetime_secs: 0,
        no_final_required: false,
        checkpoint_dir: None,
        session_id: None,
    }
}

/// The trace of a task whose agent loop answered: one final step with the
/// answer; the loop does not report its iterations, so the configured maximum
/// stands for them.
pub fn success_trace(
    task_name: &str,
    started_at: String,
    ended_at: String,
    duration_ms: u64,
    max_iterations: usize,
    final_response: &str,
) -> (t: RunTrace)
    ensures
        t.task_name@ == task_name@,
        t.started_at == started_at,
        t.ended_at == ended_at,
        t.duration_ms == duration_ms,
        t.iterations == max_iterations,
        t.steps@.len() == 1,
        t.steps@[0].number == 0,
        t.steps@[0].step_type == StepType::Final,
        t.steps@[0].content@ == final_response@,
        t.steps@[0].duration_ms == duration_ms,
        t.llm_calls@.len() == 0,
        t.tool_calls@.len() == 0,
        t.final_response@ == final_response@,
{
    RunTrace {
        task_name: String::from_str(task_name),
        started_at,
        ended_at,
        duration_ms,
        iterations: max_iterations,
        steps: vec![
            TraceStep {
                number: 0,
                step_type: StepType::Final,
                content: String::from_str(final_response),
                duration_ms,
            },
        ],
        llm_calls: Vec::new(),
        tool_calls: Vec::new(),
        final_response: String::from_str(final_response),
    }
}

/// The message of a task whose agent loop failed with `error`.
pub open spec fn loop_failed_text(error: Seq<char>) -> Seq<char> {
    "Agent loop failed: "@ + error
}

fn loop_failed_message(error: &str) -> (m: String)
    ensures
        m@ == loop_failed_text(error@),
{
    let mut v: Vec<char> = Vec::new();
    push_str(&mut v, "Agent loop failed: ");
    push_str(&mut v, error);
    string_from_chars(&v)
}

/// The trace of a task whose agent loop failed with `error` (its message):
/// no iterations, one error step, no response.
pub fn failure_trace(task_name: &str, started_at: String, ended_at: String, duration_ms: u64, error: &str) -> (t:
    RunTrace)
    ensures
        t.task_name@ == task_name@,
        t.started_at == started_at,
        t.ended_at == ended_at,
        t.duration_ms == duration_ms,
        t.iterations == 0,
        t.steps@.len() == 1,
        t.steps@[0].number == 0,
        t.steps@[0].step_type == StepType::Error,
        t.steps@[0].content@ == loop_failed_text(error@),
        t.steps@[0].duration_ms == duration_ms,
        t.llm_calls@.len() == 0,
        t.tool_calls@.len() == 0,
        t.final_response@.len() == 0,
{
    RunTrace {
        task_name: String::from_str(task_name),
        started_at,
        ended_at,
        duration_ms,
        iterations: 0,
        steps: vec![
            TraceStep { number: 0, step_type: StepType::Error, content: loop_failed_message(error), duration_ms },
        ],
        llm_calls: Vec::new(),
        tool_calls: Vec::new(),
        final_response: String::new(),
    }
}

/// The single failed assertion reported for a task whose agent loop failed.
pub fn loop_failure_result(error: &str) -> (r: AssertionResult)
    ensures
        r.assertion@ == "agent_loop"@,
        !r.passed,
        r.details@ == loop_failed_text(error@),
{
    AssertionResult { assertion: String::from_str("agent_loop"), passed: false, details: loop_failed_message(error) }
}

/// The score of an answered task as a fraction (numerator, denominator):
/// without assertions, 1 for an answer of at least ten bytes and 0 otherwise;
/// with assertions, the share that held (0 when the counts do not add up).
pub open spec fn task_score_spec(assertions: nat, passed: nat, failed: nat, response: Seq<char>) -> (nat, nat) {
    if assertions == 0 {
        if byte_len(response) == 0 || byte_len(response) < 10 { (0, 1) } else { (1, 1) }
    } else if assertions == passed + failed {
        (passed, assertions)
    } else {
        (0, 1)
    }
}

/// Scores an answered task.
pub fn task_score(assertions: usize, passed: usize, failed: usize, response: &str) -> (r: (usize, usize))
    ensures
        r.0 == task_score_spec(assertions as nat, passed as nat, failed as nat, response@).0,
        r.1 == task_score_spec(assertions as nat, passed as nat, failed as nat, response@).1,
        r.1 > 0,
{
    if assertions == 0 {
        let n = response.len();
        if n == 0 || n < 10 { (0, 1) } else { (1, 1) }
    } else if (assertions as u128) == (passed as u128) + (failed as u128) {
        (passed, assertions)
    } else {
        (0, 1)
    }
}

} // verus!