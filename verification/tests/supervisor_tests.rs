use ravenclaws::audit::{AuditEventType, AuditLog};
use ravenclaws::error::RavenClawsError;
use ravenclaws::supervisor::{
    parse_agent_subtask, parse_provider_subtask, parse_usize, remove_all_chars, SubtaskAgent, SubtaskStep,
    SupervisorLoop, SupervisorStep,
};

fn chars(s: &str) -> Vec<char> {
    s.chars().collect()
}

#[test]
fn supervisor_reads_agent_subtasks() {
    assert_eq!(
        parse_agent_subtask("Plan:\nSUBTASK: fetch the data \nAGENT: 2\nmore"),
        Some(("fetch the data".to_string(), "2".to_string()))
    );
    // No AGENT line among the first three lines: agent 1.
    assert_eq!(
        parse_agent_subtask("SUBTASK: a\nb\nc\nAGENT: 9"),
        Some(("a".to_string(), "1".to_string()))
    );
    // The block ends at the next SUBTASK marker.
    assert_eq!(
        parse_agent_subtask("SUBTASK: one SUBTASK: two\nAGENT: 3"),
        Some(("one".to_string(), "1".to_string()))
    );
    assert_eq!(parse_agent_subtask("nothing here"), None);
    // An AGENT value stops at the next colon.
    assert_eq!(
        parse_agent_subtask("SUBTASK: x\nAGENT: 4: extra"),
        Some(("x".to_string(), "4".to_string()))
    );
}

#[test]
fn supervisor_reads_provider_subtasks() {
    assert_eq!(
        parse_provider_subtask("SUBTASK: summarise\nPROVIDER: 1"),
        Some(("summarise".to_string(), 1))
    );
    assert_eq!(parse_provider_subtask("SUBTASK: summarise\nPROVIDER: two"), Some(("summarise".to_string(), 0)));
    assert_eq!(parse_provider_subtask("SUBTASK: summarise only"), None);
    // PROVIDER past the first four lines after SUBTASK: provider 0.
    assert_eq!(parse_provider_subtask("SUBTASK: s\na\nb\nc\nPROVIDER: 1"), Some(("s".to_string(), 0)));
}

#[test]
fn usize_parsing_follows_std() {
    for s in ["0", "42", "+7", "007", "18446744073709551615", "", "+", "-1", "1a", " 1", "18446744073709551616"] {
        assert_eq!(parse_usize(&chars(s)), s.parse::<usize>().ok(), "input {:?}", s);
    }
}

#[test]
fn remove_all_matches_replace() {
    for (s, p) in [("aFINAL:bFINAL:c", "FINAL:"), ("FINAL:FINAL:", "FINAL:"), ("none", "DONE:"), ("DODONE:NE:", "DONE:")] {
        let r: String = remove_all_chars(&chars(s), &chars(p)).into_iter().collect();
        assert_eq!(r, s.replace(p, ""));
    }
}

#[test]
fn supervisor_single_provider_run() {
    let mut audit = AuditLog::new("supervisor-test".to_string()).unwrap();
    let mut sup = SupervisorLoop::start("sys", None);
    assert_eq!(sup.history().len(), 2);
    assert!(sup.history()[1].content.starts_with("You are a supervisor agent. Your task is to decompose"));
    assert_eq!(sup.next_call(), Some(0));
    match sup.after_response("SUBTASK: count files\nAGENT: 1", &mut audit) {
        SupervisorStep::RunSubtask { description, agent } => {
            assert_eq!(description, "count files");
            assert_eq!(agent, "1");
            sup.after_subtask(&agent, &description, Ok("42 files".to_string()));
        },
        other => panic!("unexpected step {:?}", other),
    }
    assert_eq!(sup.history().len(), 4);
    assert_eq!(sup.history()[2].content, "Decomposed subtask 1: count files");
    assert_eq!(sup.history()[3].content, "Subtask 1 result: 42 files");
    sup.after_subtask("2", "x", Err(RavenClawsError::CommandExecution("boom".to_string())));
    assert_eq!(sup.history()[4].content, "Subtask 2 failed: Command execution failed: boom");
    assert_eq!(sup.finish().unwrap(), "Agent 1 result: 42 files");
    assert_eq!(sup.summary("Agent 1 result: 42 files"), "Supervisor completed: 1 subtasks, result: 24 chars");
    assert_eq!(sup.next_call(), Some(0));
    match sup.after_response("All done.\nFINAL: 42 files in total", &mut audit) {
        SupervisorStep::Finished(answer) => assert_eq!(answer, "42 files in total"),
        other => panic!("unexpected step {:?}", other),
    }
    let entries = audit.entries();
    assert_eq!(entries.len(), 1);
    assert_eq!(entries[0].event_type, AuditEventType::AgentFinish);
    assert_eq!(entries[0].metadata.as_deref(), Some("{\"iterations\":2,\"subtasks_completed\":1}"));
}

#[test]
fn supervisor_stops_after_fifteen_calls() {
    let mut audit = AuditLog::new("s".to_string()).unwrap();
    let mut sup = SupervisorLoop::start("sys", None);
    for _ in 0..15 {
        assert!(sup.next_call().is_some());
        assert!(matches!(sup.after_response("thinking", &mut audit), SupervisorStep::Continue));
    }
    assert_eq!(sup.next_call(), None);
    match sup.finish() {
        Err(e) => assert_eq!(e.message(), "Command execution failed: Supervisor mode completed without results"),
        Ok(_) => panic!("expected no results"),
    }
    // The conversation keeps the system prompt and at most 20 messages.
    assert_eq!(sup.history().len(), 17);
    assert_eq!(sup.history()[0].role, "system");
}

#[test]
fn supervisor_multi_model_rotates_clients() {
    let mut audit = AuditLog::new("s".to_string()).unwrap();
    let mut sup = SupervisorLoop::start("sys", Some(3));
    assert!(sup.history()[1].content.contains("PROVIDER: <provider_index 0-2>"));
    assert_eq!(sup.next_call(), Some(1));
    assert_eq!(sup.next_call(), Some(2));
    assert_eq!(sup.next_call(), Some(0));
    match sup.after_response("SUBTASK: review\nPROVIDER: 7", &mut audit) {
        SupervisorStep::RunProviderSubtask { description, provider, client } => {
            assert_eq!(description, "review");
            assert_eq!(provider, 7);
            assert_eq!(client, 0);
            sup.after_provider_subtask(provider, "litellm", &description, Ok("ok".to_string()));
        },
        other => panic!("unexpected step {:?}", other),
    }
    assert_eq!(sup.finish().unwrap(), "Provider 7 (litellm): ok");
    assert_eq!(sup.history()[2].content, "Assigned subtask to provider 7: review");
    match sup.after_response("FINAL: done", &mut audit) {
        SupervisorStep::Finished(a) => assert_eq!(a, "done"),
        other => panic!("unexpected step {:?}", other),
    }
    assert_eq!(
        audit.entries()[0].metadata.as_deref(),
        Some("{\"iterations\":3,\"providers_used\":3,\"subtasks_completed\":1}")
    );
}

#[test]
fn subtask_agent_flow() {
    let mut a = SubtaskAgent::start("sys", "list files");
    assert_eq!(a.history()[1].content, "Execute this subtask: list files");
    assert!(a.next_call());
    assert!(matches!(a.after_response("thinking"), SubtaskStep::Continue));
    assert_eq!(a.history().len(), 4);
    assert_eq!(a.history()[3].content, "Continue with next step.");
    assert!(a.next_call());
    match a.after_response("TOOL_CALL: shell_exec\nARGS: {\"command\": \"ls\"}") {
        SubtaskStep::RunTool { name, .. } => assert_eq!(name, "shell_exec"),
        other => panic!("unexpected step {:?}", other),
    }
    a.after_tool("a b c");
    assert_eq!(a.history()[5].content, "Tool result: a b c");
    assert!(a.next_call());
    match a.after_response("DONE: three files FINAL:") {
        SubtaskStep::Done(r) => assert_eq!(r, "three files"),
        other => panic!("unexpected step {:?}", other),
    }
    assert!(a.next_call());
    assert!(a.next_call());
    assert!(!a.next_call());
    assert_eq!(SubtaskAgent::exhausted_result(), "Subtask completed");
}
