//! The checks a tool call goes through before and after it runs: the audit
//! trail, human approval of sensitive tools, and the policy decision.
//!
//! The policy engine, the approval prompt and the tool itself are the
//! application's; these functions audit each step and decide what the agent
//! is told when a call is refused or fails.

use vstd::prelude::*;
use crate::agent::ToolOutcome;
use crate::audit::{decision_json, AuditEventType, AuditLog};
use crate::config::{lowercase, to_lowercase};
use crate::mcp::{bool_text, push_signed, signed_decimal};
use crate::text::{chars_of, decimal, json_quote, json_quoted, push_decimal, push_str, string_from_chars, trim_chars, trim_seq};

verus! {

/// Whether an answer to the approval prompt grants the call: `y` or `yes`,
/// in any case, with surrounding whitespace ignored.
pub open spec fn approval_granted_spec(input: Seq<char>) -> bool {
    lowercase(trim_seq(input)) == "y"@ || lowercase(trim_seq(input)) == "yes"@
}

/// Reads an answer to the approval prompt.
pub fn approval_granted(input: &str) -> (b: bool)
    ensures
        b == approval_granted_spec(input@),
{
    let t = string_from_chars(&trim_chars(&chars_of(input)));
    let l = to_lowercase(t.as_str());
    let lc = chars_of(l.as_str());
    crate::text::chars_eq(&lc, "y") || crate::text::chars_eq(&lc, "yes")
}

/// The verdict of the policy engine on a tool call.
#[derive(Debug, Clone)]
pub enum PolicyDecision {
    /// The call may run.
    Allow,
    /// The call is refused, for this reason.
    Deny(String),
}

/// What follows the policy decision on a tool call.
#[derive(Debug, Clone)]
pub enum GateStep {
    /// The call ends with this outcome (the policy refused it).
    Refused(ToolOutcome),
    /// The policy allowed it and it is sensitive: ask the user to approve it,
    /// then report with [`after_approval`].
    AskApproval,
    /// Run the tool, then report with [`after_execution`].
    Run,
}

/// The outcome reported to the agent for a call that did not run.
pub open spec fn refused(o: ToolOutcome, tool_name: Seq<char>, error: Seq<char>) -> bool {
    &&& o.tool_name@ == tool_name
    &&& !o.success
    &&& o.output@ == Seq::<char>::empty()
    &&& o.error matches Some(e) && e@ == error
    &&& o.exit_code == Some(-1i32)
    &&& o.duration_ms is None
}

fn refusal(tool_name: &str, error: String) -> (o: ToolOutcome)
    ensures
        refused(o, tool_name@, error@),
{
    ToolOutcome {
        tool_name: String::from_str(tool_name),
        success: false,
        output: String::new(),
        error: Some(error),
        exit_code: Some(-1),
        duration_ms: None,
    }
}

/// The metadata of an approval request.
pub open spec fn approval_request_json(tool_name: Seq<char>, args_json: Seq<char>) -> Seq<char> {
    "{\"args\":"@ + args_json + ",\"tool\":"@ + json_quote(tool_name) + "}"@
}

/// Audits a requested tool call (`args_json`: its arguments as compact
/// JSON); the policy is asked next, then reported with [`after_policy`].
pub fn begin_tool_call(audit: &mut AuditLog, tool_name: &str, args_json: &str)
    requires
        old(audit).records().len() < u64::MAX,
    ensures
        final(audit).records().drop_last() == old(audit).records(),
        final(audit).records().len() == old(audit).records().len() + 1,
        ({
            let e = final(audit).records().last();
            &&& e.event_type == AuditEventType::ToolCall
            &&& e.component@ == tool_name@
            &&& e.metadata matches Some(m) && m@ == "{\"arguments\":"@ + args_json@ + "}"@
        }),
{
    let _ = audit.tool_call(tool_name, args_json);
}

/// Audits the user's answer; a refusal ends the call with
/// `Approval denied by user for tool: <name>`.
pub fn after_approval(audit: &mut AuditLog, tool_name: &str, granted: bool) -> (r: Option<ToolOutcome>)
    requires
        old(audit).records().len() < u64::MAX,
    ensures
        final(audit).records().drop_last() == old(audit).records(),
        final(audit).records().len() == old(audit).records().len() + 1,
        final(audit).records().last().event_type == (if granted {
            AuditEventType::ApprovalGranted
        } else {
            AuditEventType::ApprovalDenied
        }),
        final(audit).records().last().metadata matches Some(m) && m@ == decision_json(
            "granted"@,
            granted,
            if granted { Some("Approved by user") } else { Some("Denied by user") },
            tool_name@,
        ),
        granted ==> r is None,
        !granted ==> (r matches Some(o) && refused(o, tool_name@, "Approval denied by user for tool: "@ + tool_name@)),
{
    if granted {
        let _ = audit.approval(tool_name, true, Some("Approved by user"));
        None
    } else {
        let _ = audit.approval(tool_name, false, Some("Denied by user"));
        let mut v: Vec<char> = Vec::new();
        push_str(&mut v, "Approval denied by user for tool: ");
        push_str(&mut v, tool_name);
        assert(v@ =~= "Approval denied by user for tool: "@ + tool_name@);
        Some(refusal(tool_name, string_from_chars(&v)))
    }
}

/// Audits the policy decision, which comes before any approval: a denial
/// ends the call with `Policy denied: <reason>` and nobody is asked. An
/// allowed call that needs approval (`require_approval`, and the policy marks
/// the tool as sensitive: `needs_approval`) has its approval request audited
/// and the user is asked; any other allowed call runs.
pub fn after_policy(
    audit: &mut AuditLog,
    tool_name: &str,
    args_json: &str,
    decision: &PolicyDecision,
    require_approval: bool,
    needs_approval: bool,
) -> (s: GateStep)
    requires
        old(audit).records().len() + 2 <= u64::MAX,
    ensures
        final(audit).records()[old(audit).records().len() as int].event_type == AuditEventType::PolicyDecision,
        final(audit).records().subrange(0, old(audit).records().len() as int) == old(audit).records(),
        match *decision {
            PolicyDecision::Deny(reason) => {
                &&& s matches GateStep::Refused(o) && refused(o, tool_name@, "Policy denied: "@ + reason@)
                &&& final(audit).records().len() == old(audit).records().len() + 1
                &&& final(audit).records().last().metadata matches Some(m) && m@ == "{\"allowed\":false,\"reason\":"@
                    + json_quote(reason@) + ",\"tool\":"@ + json_quote(tool_name@) + "}"@
            },
            PolicyDecision::Allow => {
                &&& final(audit).records()[old(audit).records().len() as int].metadata matches Some(m) && m@
                    == decision_json("allowed"@, true, None, tool_name@)
                &&& if require_approval && needs_approval {
                    &&& s is AskApproval
                    &&& final(audit).records().len() == old(audit).records().len() + 2
                    &&& ({
                        let e = final(audit).records().last();
                        &&& e.event_type == AuditEventType::ApprovalRequested
                        &&& e.component@ == "approval"@
                        &&& e.description@ == "Approval required for tool: "@ + tool_name@
                        &&& e.metadata matches Some(m) && m@ == approval_request_json(tool_name@, args_json@)
                    })
                } else {
                    &&& s is Run
                    &&& final(audit).records().len() == old(audit).records().len() + 1
                }
            },
        },
{
    let ghost before = audit.records();
    match decision {
        PolicyDecision::Allow => {
            let _ = audit.policy_decision(tool_name, true, None);
            let ghost after_decision = audit.records();
            if require_approval && needs_approval {
                let mut d: Vec<char> = Vec::new();
                push_str(&mut d, "Approval required for tool: ");
                push_str(&mut d, tool_name);
                let mut m: Vec<char> = Vec::new();
                push_str(&mut m, "{\"args\":");
                push_str(&mut m, args_json);
                push_str(&mut m, ",\"tool\":");
                let q = json_quoted(tool_name);
                push_str(&mut m, q.as_str());
                push_str(&mut m, "}");
                assert(d@ =~= "Approval required for tool: "@ + tool_name@);
                assert(m@ =~= approval_request_json(tool_name@, args_json@));
                let desc = string_from_chars(&d);
                let _ = audit.append(
                    AuditEventType::ApprovalRequested,
                    "approval",
                    desc.as_str(),
                    Some(string_from_chars(&m)),
                );
                proof {
                    assert(audit.records().drop_last() == after_decision);
                    assert(after_decision.drop_last() == before);
                    assert(audit.records().subrange(0, before.len() as int) =~= before) by {
                        assert forall|k: int| 0 <= k < before.len() implies audit.records()[k] == before[k] by {
                            assert(audit.records()[k] == after_decision[k]);
                            assert(after_decision[k] == before[k]);
                        }
                    }
                    assert(audit.records()[before.len() as int] == after_decision.last());
                }
                GateStep::AskApproval
            } else {
                proof {
                    assert(audit.records().subrange(0, before.len() as int) =~= before);
                }
                GateStep::Run
            }
        },
        PolicyDecision::Deny(reason) => {
            let rs = reason.as_str();
            let _ = audit.policy_decision(tool_name, false, Some(rs));
            proof {
                reveal_strlit("{\"");
                reveal_strlit("allowed");
                reveal_strlit("\":");
                reveal_strlit("false");
                reveal_strlit(",\"reason\":");
                reveal_strlit("{\"allowed\":false,\"reason\":");
                assert(decision_json("allowed"@, false, Some(rs), tool_name@) =~= "{\"allowed\":false,\"reason\":"@
                    + json_quote(reason@) + ",\"tool\":"@ + json_quote(tool_name@) + "}"@);
                assert(audit.records().subrange(0, before.len() as int) =~= before);
            }
            let mut v: Vec<char> = Vec::new();
            push_str(&mut v, "Policy denied: ");
            push_str(&mut v, reason.as_str());
            assert(v@ =~= "Policy denied: "@ + reason@);
            GateStep::Refused(refusal(tool_name, string_from_chars(&v)))
        },
    }
}

/// The metadata of a finished tool run.
pub open spec fn run_metadata(o: ToolOutcome) -> Seq<char> {
    "{\"duration_ms\":"@ + match o.duration_ms {
        Some(d) => decimal(d as nat),
        None => "null"@,
    } + ",\"exit_code\":"@ + match o.exit_code {
        Some(c) => signed_decimal(c as int),
        None => "null"@,
    } + ",\"success\":"@ + bool_text(o.success) + "}"@
}

/// Audits what running the tool produced and returns the outcome the agent
/// sees: the tool's own outcome, or, when it could not run, a failure with
/// the error.
pub fn after_execution(audit: &mut AuditLog, tool_name: &str, result: Result<ToolOutcome, String>) -> (o: ToolOutcome)
    requires
        old(audit).records().len() < u64::MAX,
    ensures
        final(audit).records().drop_last() == old(audit).records(),
        final(audit).records().len() == old(audit).records().len() + 1,
        final(audit).records().last().component@ == tool_name@,
        match result {
            Ok(r) => {
                &&& o == r
                &&& final(audit).records().last().event_type == AuditEventType::ToolResult
                &&& final(audit).records().last().description@ == "Tool executed: "@ + tool_name@ + " (success: "@
                    + bool_text(r.success) + ")"@
                &&& final(audit).records().last().metadata matches Some(m) && m@ == run_metadata(r)
            },
            Err(e) => {
                &&& o.tool_name@ == tool_name@
                &&& !o.success
                &&& o.output@ == Seq::<char>::empty()
                &&& o.error == Some(e)
                &&& o.exit_code == Some(-1i32)
                &&& o.duration_ms is None
                &&& final(audit).records().last().event_type == AuditEventType::Error
                &&& final(audit).records().last().description@ == "Tool execution failed: "@ + e@
                &&& final(audit).records().last().metadata is None
            },
        },
{
    match result {
        Ok(r) => {
            let mut d: Vec<char> = Vec::new();
            push_str(&mut d, "Tool executed: ");
            push_str(&mut d, tool_name);
            push_str(&mut d, " (success: ");
            if r.success {
                push_str(&mut d, "true");
            } else {
                push_str(&mut d, "false");
            }
            push_str(&mut d, ")");
            let mut m: Vec<char> = Vec::new();
            push_str(&mut m, "{\"duration_ms\":");
            match r.duration_ms {
                Some(x) => push_decimal(&mut m, x),
                None => push_str(&mut m, "null"),
            }
            push_str(&mut m, ",\"exit_code\":");
            match r.exit_code {
                Some(c) => push_signed(&mut m, c),
                None => push_str(&mut m, "null"),
            }
            push_str(&mut m, ",\"success\":");
            if r.success {
                push_str(&mut m, "true");
            } else {
                push_str(&mut m, "false");
            }
            push_str(&mut m, "}");
            assert(d@ =~= "Tool executed: "@ + tool_name@ + " (success: "@ + bool_text(r.success) + ")"@);
            assert(m@ =~= run_metadata(r));
            let desc = string_from_chars(&d);
            let _ = audit.append(AuditEventType::ToolResult, tool_name, desc.as_str(), Some(string_from_chars(&m)));
            r
        },
        Err(e) => {
            let mut d: Vec<char> = Vec::new();
            push_str(&mut d, "Tool execution failed: ");
            push_str(&mut d, e.as_str());
            assert(d@ =~= "Tool execution failed: "@ + e@);
            let desc = string_from_chars(&d);
            let _ = audit.append(AuditEventType::Error, tool_name, desc.as_str(), None);
            ToolOutcome {
                tool_name: String::from_str(tool_name),
                success: false,
                output: String::new(),
                error: Some(e),
                exit_code: Some(-1),
                duration_ms: None,
            }
        },
    }
}

} // verus!
