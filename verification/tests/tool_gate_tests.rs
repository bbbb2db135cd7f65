use ravenclaws::agent::ToolOutcome;
use ravenclaws::audit::{AuditEventType, AuditLog};
use ravenclaws::tool_gate::{after_approval, after_execution, after_policy, approval_granted, begin_tool_call, GateStep, PolicyDecision};

#[test]
fn test_prompt_for_approval_yes() {
    assert!(approval_granted("y"));
}

#[test]
fn test_prompt_for_approval_yes_full() {
    assert!(approval_granted("yes"));
}

#[test]
fn test_prompt_for_approval_no() {
    assert!(!approval_granted("n"));
}

#[test]
fn test_prompt_for_approval_no_full() {
    assert!(!approval_granted("no"));
}

#[test]
fn test_prompt_for_approval_empty() {
    assert!(!approval_granted(""));
}

#[test]
fn test_prompt_for_approval_uppercase() {
    assert!(approval_granted("Y"));
    assert!(approval_granted("YES"));
}

#[test]
fn approval_answer_is_trimmed() {
    assert!(approval_granted("  yes \n"));
    assert!(!approval_granted("yess"));
}

#[test]
fn test_execute_parsed_tool_call_skips_approval_when_not_required() {
    let mut audit = AuditLog::new("t".to_string()).unwrap();
    begin_tool_call(&mut audit, "shell_exec", "{\"command\":\"ls\"}");
    let step = after_policy(&mut audit, "shell_exec", "{\"command\":\"ls\"}", &PolicyDecision::Allow, false, true);
    assert!(matches!(step, GateStep::Run));
    let e = audit.entries();
    assert_eq!(e.len(), 2);
    assert_eq!(e[0].event_type, AuditEventType::ToolCall);
    assert_eq!(e[0].metadata.as_deref(), Some("{\"arguments\":{\"command\":\"ls\"}}"));
    assert_eq!(e[1].event_type, AuditEventType::PolicyDecision);
}

#[test]
fn test_execute_parsed_tool_call_approval_not_needed_for_read_only_tools() {
    let mut audit = AuditLog::new("t".to_string()).unwrap();
    begin_tool_call(&mut audit, "read_file", "{}");
    assert!(matches!(after_policy(&mut audit, "read_file", "{}", &PolicyDecision::Allow, true, false), GateStep::Run));
    assert_eq!(audit.entries().len(), 2);
}

#[test]
fn approval_requested_and_denied() {
    let mut audit = AuditLog::new("t".to_string()).unwrap();
    begin_tool_call(&mut audit, "shell_exec", "{\"command\":\"rm\"}");
    let step = after_policy(&mut audit, "shell_exec", "{\"command\":\"rm\"}", &PolicyDecision::Allow, true, true);
    assert!(matches!(step, GateStep::AskApproval));
    let e = audit.entries();
    assert_eq!(e.len(), 3);
    assert_eq!(e[1].event_type, AuditEventType::PolicyDecision);
    assert_eq!(e[2].event_type, AuditEventType::ApprovalRequested);
    assert_eq!(e[2].description, "Approval required for tool: shell_exec");
    assert_eq!(e[2].metadata.as_deref(), Some("{\"args\":{\"command\":\"rm\"},\"tool\":\"shell_exec\"}"));
    let outcome = after_approval(&mut audit, "shell_exec", false).unwrap();
    assert!(!outcome.success);
    assert_eq!(outcome.error.as_deref(), Some("Approval denied by user for tool: shell_exec"));
    assert_eq!(outcome.exit_code, Some(-1));
    let e = audit.entries();
    assert_eq!(e[3].event_type, AuditEventType::ApprovalDenied);
    assert_eq!(
        e[3].metadata.as_deref(),
        Some("{\"granted\":false,\"reason\":\"Denied by user\",\"tool\":\"shell_exec\"}")
    );
    assert!(after_approval(&mut audit, "shell_exec", true).is_none());
    assert_eq!(audit.entries()[4].event_type, AuditEventType::ApprovalGranted);
    assert!(audit.verify().is_ok());
}

#[test]
fn policy_denial_comes_before_approval() {
    let mut audit = AuditLog::new("t".to_string()).unwrap();
    begin_tool_call(&mut audit, "shell_exec", "{\"command\":\"rm\"}");
    let step = after_policy(
        &mut audit,
        "shell_exec",
        "{\"command\":\"rm\"}",
        &PolicyDecision::Deny("blocked command".to_string()),
        true,
        true,
    );
    match step {
        GateStep::Refused(o) => {
            assert_eq!(o.error.as_deref(), Some("Policy denied: blocked command"));
            assert_eq!(o.exit_code, Some(-1));
            assert!(!o.success);
        },
        _ => panic!("expected a refusal"),
    }
    let e = audit.entries();
    assert_eq!(e.len(), 2);
    assert!(e.iter().all(|x| x.event_type != AuditEventType::ApprovalRequested));
}

#[test]
fn policy_decisions() {
    let mut audit = AuditLog::new("t".to_string()).unwrap();
    assert!(matches!(after_policy(&mut audit, "read_file", "{}", &PolicyDecision::Allow, false, false), GateStep::Run));
    let denied = after_policy(&mut audit, "shell_exec", "{}", &PolicyDecision::Deny("blocked command".to_string()), false, false);
    assert!(matches!(denied, GateStep::Refused(ref o) if o.error.as_deref() == Some("Policy denied: blocked command")));
    let e = audit.entries();
    assert_eq!(e[0].metadata.as_deref(), Some("{\"allowed\":true,\"reason\":null,\"tool\":\"read_file\"}"));
    assert_eq!(
        e[1].metadata.as_deref(),
        Some("{\"allowed\":false,\"reason\":\"blocked command\",\"tool\":\"shell_exec\"}")
    );
}

#[test]
fn execution_results_are_audited() {
    let mut audit = AuditLog::new("t".to_string()).unwrap();
    let ran = ToolOutcome {
        tool_name: "shell_exec".to_string(),
        success: true,
        output: "ok".to_string(),
        error: None,
        exit_code: Some(0),
        duration_ms: Some(12),
    };
    let o = after_execution(&mut audit, "shell_exec", Ok(ran));
    assert_eq!(o.output, "ok");
    let failed = after_execution(&mut audit, "web_fetch", Err("timeout".to_string()));
    assert_eq!(failed.error.as_deref(), Some("timeout"));
    assert_eq!(failed.exit_code, Some(-1));
    let e = audit.entries();
    assert_eq!(e[0].description, "Tool executed: shell_exec (success: true)");
    assert_eq!(e[0].metadata.as_deref(), Some("{\"duration_ms\":12,\"exit_code\":0,\"success\":true}"));
    assert_eq!(e[1].event_type, AuditEventType::Error);
    assert_eq!(e[1].description, "Tool execution failed: timeout");
}
