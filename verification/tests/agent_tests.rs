use ravenclaws::agent::{checkpoint_file_name, checkpoint_temp_file_name};
use ravenclaws::agent::{
    final_answer, legacy_tool_call, observation, parse_tool_call, AfterResponse, AgentLoop, AgentLoopConfig, BeforeCall,
    ConversationMemory, ToolOutcome,
};
use ravenclaws::llm::ChatMessage;

#[test]
fn test_conversation_memory_new() {
    let mem = ConversationMemory::new("system prompt", 10);
    assert_eq!(mem.history().len(), 1);
    assert_eq!(mem.history()[0].role, "system");
    assert_eq!(mem.history()[0].content, "system prompt");
}

#[test]
fn test_conversation_memory_add_user() {
    let mut mem = ConversationMemory::new("system", 10);
    mem.add_user_message("hello");
    assert_eq!(mem.history().len(), 2);
    assert_eq!(mem.history()[1].role, "user");
    assert_eq!(mem.history()[1].content, "hello");
}

#[test]
fn test_conversation_memory_trim() {
    let mut mem = ConversationMemory::new("system", 3);
    mem.add_user_message("msg1");
    mem.add_assistant_message("resp1");
    mem.add_user_message("msg2");
    mem.add_assistant_message("resp2");
    // Should trim to keep system + 2 messages
    assert!(mem.history().len() <= 3);
}

#[test]
fn test_parse_tool_call_valid() {
    let content = "THOUGHT: I need to run a command\nTOOL_CALL: shell_exec\nARGS: {\"command\": \"echo hello\"}";
    let (name, args) = parse_tool_call(content).unwrap();
    assert_eq!(name, "shell_exec");
    assert_eq!(args["command"], "echo hello");
}

#[test]
fn test_parse_tool_call_missing_tool() {
    let content = "THOUGHT: no tool here";
    assert!(parse_tool_call(content).is_none());
}

#[test]
fn test_parse_tool_call_missing_args() {
    let content = "TOOL_CALL: shell_exec\nNo args line";
    assert!(parse_tool_call(content).is_none());
}

#[test]
fn test_parse_tool_call_invalid_json() {
    let content = "TOOL_CALL: shell_exec\nARGS: not valid json";
    assert!(parse_tool_call(content).is_none());
}

#[test]
fn test_agent_loop_config_default() {
    let config = AgentLoopConfig::default();
    assert_eq!(config.max_iterations, 10);
    assert!(!config.enable_tools);
    assert!(!config.require_approval);
}

#[test]
fn test_agent_loop_config_require_approval() {
    let config = AgentLoopConfig {
        max_iterations: 5,
        enable_tools: true,
        require_approval: true,
        prompt_injection_protection: true,
        token_lifetime_secs: 0,
        no_final_required: false,
        checkpoint_dir: None,
        session_id: None,
    };
    assert_eq!(config.max_iterations, 5);
    assert!(config.enable_tools);
    assert!(config.require_approval);
    assert!(config.prompt_injection_protection);
    assert_eq!(config.token_lifetime_secs, 0);
}

#[test]
fn test_agent_loop_config_token_lifetime_zero_disabled() {
    let config = AgentLoopConfig {
        max_iterations: 10,
        enable_tools: false,
        require_approval: false,
        prompt_injection_protection: false,
        token_lifetime_secs: 0,
        no_final_required: false,
        checkpoint_dir: None,
        session_id: None,
    };
    assert_eq!(config.token_lifetime_secs, 0);
}

#[test]
fn test_agent_loop_config_token_lifetime_nonzero() {
    let config = AgentLoopConfig {
        max_iterations: 10,
        enable_tools: false,
        require_approval: false,
        prompt_injection_protection: false,
        token_lifetime_secs: 3600,
        no_final_required: false,
        checkpoint_dir: None,
        session_id: None,
    };
    assert_eq!(config.token_lifetime_secs, 3600);
}

#[test]
fn test_agent_loop_config_default_includes_token_lifetime() {
    let config = AgentLoopConfig::default();
    assert_eq!(config.token_lifetime_secs, 0);
}

// ── Additional scenarios ────────────────────────────────────────────────

#[test]
fn memory_without_cap_keeps_everything() {
    let mut mem = ConversationMemory::new("sys", 0);
    for _ in 0..20 {
        mem.add_user_message("x");
    }
    assert_eq!(mem.len(), 21);
    assert_eq!(mem.history()[0].role, "system");
}

#[test]
fn memory_trim_keeps_system_prompt_and_newest() {
    let mut mem = ConversationMemory::new("system", 3);
    mem.add_user_message("msg1");
    mem.add_assistant_message("resp1");
    mem.add_user_message("msg2");
    mem.add_assistant_message("resp2");
    let h = mem.history();
    assert_eq!(h.len(), 3);
    assert_eq!(h[0].content, "system");
    assert_eq!(h[1].content, "msg2");
    assert_eq!(h[2].content, "resp2");
}

#[test]
fn memory_from_history_keeps_messages() {
    let msgs = vec![ChatMessage::new("system", "s"), ChatMessage::new("user", "u")];
    let mem = ConversationMemory::from_history(msgs, 5);
    assert_eq!(mem.len(), 2);
    assert!(!mem.is_empty());
    assert_eq!(mem.history()[1].content, "u");
}

#[test]
fn memory_with_only_system_prompt_is_empty() {
    let mem = ConversationMemory::new("sys", 10);
    assert_eq!(mem.len(), 1);
    assert!(mem.is_empty());
    let none = ConversationMemory::from_history(vec![], 10);
    assert!(none.is_empty());
    let one_user = ConversationMemory::from_history(vec![ChatMessage::new("user", "u")], 10);
    assert!(!one_user.is_empty());
}

#[test]
fn parse_tool_call_trims_name_and_args() {
    let content = "TOOL_CALL:   read_file  \n  ARGS:  {\"path\": \"/tmp/a\"}  ";
    let (name, args) = parse_tool_call(content).unwrap();
    assert_eq!(name, "read_file");
    assert_eq!(args["path"], "/tmp/a");
}

#[test]
fn parse_tool_call_empty_name_is_none() {
    assert!(parse_tool_call("TOOL_CALL:   \nARGS: {}").is_none());
}

#[test]
fn parse_tool_call_args_must_follow_tool_line() {
    assert!(parse_tool_call("ARGS: {}\nTOOL_CALL: shell_exec").is_none());
}

#[test]
fn final_answer_extracts_text_after_marker() {
    assert_eq!(final_answer("THOUGHT: done\nFINAL:  the answer  "), "the answer");
    assert_eq!(final_answer("FINAL: a FINAL: b"), "a");
    assert_eq!(final_answer("no marker"), "");
}

#[test]
fn observation_formats_success_and_failure() {
    let ok = ToolOutcome { tool_name: "t".to_string(), success: true, output: "out".to_string(), error: None, exit_code: None, duration_ms: None };
    assert_eq!(observation(&ok), "OBSERVATION: out");
    let failed = ToolOutcome {
        tool_name: "t".to_string(),
        success: false,
        output: String::new(),
        error: Some("boom".to_string()),
        exit_code: Some(1),
        duration_ms: None,
    };
    assert_eq!(observation(&failed), "OBSERVATION: Tool failed with error: boom");
    let unknown = ToolOutcome { tool_name: "t".to_string(), success: false, output: String::new(), error: None, exit_code: None, duration_ms: None };
    assert_eq!(observation(&unknown), "OBSERVATION: Tool failed with error: unknown error");
}

#[test]
fn agent_loop_starts_with_system_and_user_messages() {
    let l = AgentLoop::start("sys", "do it", AgentLoopConfig::default());
    assert_eq!(l.iteration(), 0);
    assert_eq!(l.history().len(), 2);
    assert_eq!(l.history()[0].role, "system");
    assert_eq!(l.history()[1].content, "do it");
    assert!(matches!(l.before_call(0, None), BeforeCall::CallModel));
}

#[test]
fn agent_loop_stops_when_lifetime_exceeded() {
    let config = AgentLoopConfig { token_lifetime_secs: 5, ..AgentLoopConfig::default() };
    let l = AgentLoop::start("sys", "do it", config);
    assert!(matches!(l.before_call(6, None), BeforeCall::Stop(Err(_))));
    assert!(matches!(l.before_call(5, None), BeforeCall::Stop(Err(_))));
    assert!(matches!(l.before_call(4, None), BeforeCall::CallModel));
}

#[test]
fn agent_loop_records_plain_answer() {
    let mut l = AgentLoop::start("sys", "do it", AgentLoopConfig::default());
    match l.after_response("just text", None, None) {
        AfterResponse::Recorded { iteration, complete } => {
            assert_eq!(iteration, 0);
            assert!(complete);
        },
        _ => panic!("expected the response to be recorded"),
    }
    assert_eq!(l.iteration(), 1);
    assert_eq!(l.history().len(), 3);
    assert_eq!(l.history()[2].role, "assistant");
}

#[test]
fn agent_loop_final_marker_ends_with_answer() {
    let mut l = AgentLoop::start("sys", "do it", AgentLoopConfig::default());
    match l.after_response("THOUGHT: ok\nFINAL: 42", None, None) {
        AfterResponse::Stop(Ok(answer)) => assert_eq!(answer, "42"),
        _ => panic!("expected a final answer"),
    }
}

#[test]
fn agent_loop_blocks_injection() {
    let mut l = AgentLoop::start("sys", "do it", AgentLoopConfig::default());
    match l.after_response("FINAL: x", Some("override".to_string()), None) {
        AfterResponse::Stop(Err(e)) => {
            assert_eq!(e.message(), "Security violation: LLM response blocked: potential prompt injection (override)")
        },
        _ => panic!("expected the response to be blocked"),
    }
}

#[test]
fn agent_loop_legacy_tool_call_then_observation() {
    let config = AgentLoopConfig { enable_tools: true, ..AgentLoopConfig::default() };
    let mut l = AgentLoop::start("sys", "do it", config);
    match l.after_response("TOOL_CALL: shell_exec\nARGS: {\"command\": \"ls\"}", None, None) {
        AfterResponse::RunTool { name, .. } => assert_eq!(name, "shell_exec"),
        _ => panic!("expected a tool call"),
    }
    let outcome = ToolOutcome { tool_name: "shell_exec".to_string(), success: true, output: "a b".to_string(), error: None, exit_code: None, duration_ms: None };
    l.after_tool(&outcome);
    assert_eq!(l.iteration(), 1);
    assert_eq!(l.history().len(), 4);
    assert_eq!(l.history()[2].role, "assistant");
    assert_eq!(l.history()[3].content, "OBSERVATION: a b");
}

#[test]
fn agent_loop_lifetime_message() {
    let config = AgentLoopConfig { token_lifetime_secs: 5, ..AgentLoopConfig::default() };
    let l = AgentLoop::start("sys", "do it", config);
    match l.before_call(7, None) {
        BeforeCall::Stop(Err(e)) => {
            assert_eq!(e.message(), "Security violation: Session token expired after 7 seconds (limit: 5s)")
        },
        _ => panic!("expected the session to expire"),
    }
    assert!(matches!(l.before_call(1, Some(50)), BeforeCall::Stop(Err(_))));
    assert!(matches!(l.before_call(1, Some(100)), BeforeCall::CallModel));
}

#[test]
fn agent_loop_exhausted_returns_last_message() {
    let config = AgentLoopConfig { max_iterations: 0, ..AgentLoopConfig::default() };
    let l = AgentLoop::start("sys", "do it", config);
    match l.before_call(0, None) {
        BeforeCall::Stop(Ok(s)) => assert_eq!(s, "do it"),
        _ => panic!("expected the loop to stop"),
    }
}

#[test]
fn checkpoint_names_and_contents() {
    assert_eq!(checkpoint_file_name("s1"), "s1.json");
    assert_eq!(checkpoint_temp_file_name("s1"), "s1.json.tmp");
    let l = AgentLoop::start("sys", "task", AgentLoopConfig::default());
    let c = l.checkpoint("s1", 0, "task", "sys", "litellm", "gpt-4o-mini");
    assert_eq!(c.session_id, "s1");
    assert_eq!(c.max_iterations, 10);
    assert_eq!(c.messages.len(), 2);
    assert_eq!(c.messages[1].content, "task");
    assert!(!c.enable_tools);
    let resumed = AgentLoop::resume_from(c, AgentLoopConfig::default());
    assert_eq!(resumed.iteration(), 1);
    assert_eq!(resumed.history().len(), 2);
}

#[test]
fn legacy_tool_call_extracts_name_and_argument_text() {
    let content = "THOUGHT: I need to run a command\nTOOL_CALL: shell_exec\nARGS: {\"command\": \"echo hello\"}";
    let (name, args) = legacy_tool_call(content).unwrap();
    assert_eq!(name, "shell_exec");
    assert_eq!(args, "{\"command\": \"echo hello\"}");
    assert!(legacy_tool_call("TOOL_CALL: x\nno args here").is_none());
    assert!(legacy_tool_call("TOOL_CALL:   \nARGS: {}").is_none());
    // Not JSON: found as text, refused by the parser.
    assert_eq!(legacy_tool_call("TOOL_CALL: x\nARGS: nope").unwrap().1, "nope");
    assert!(parse_tool_call("TOOL_CALL: x\nARGS: nope").is_none());
}

#[test]
fn agent_loop_runs_tools_with_the_model_arguments() {
    let config = AgentLoopConfig { enable_tools: true, ..AgentLoopConfig::default() };
    let mut l = AgentLoop::start("sys", "do it", config.clone());
    let given: serde_json::Value = serde_json::from_str("{\"path\": \"/tmp/a\"}").unwrap();
    match l.after_response("calling", None, Some(("read_file".to_string(), given.clone()))) {
        AfterResponse::RunTool { name, args, .. } => {
            assert_eq!(name, "read_file");
            assert_eq!(args, given);
        },
        _ => panic!("expected a tool call"),
    }
    let mut l = AgentLoop::start("sys", "do it", config);
    match l.after_response("TOOL_CALL: shell_exec\nARGS: {\"command\": \"ls\"}", None, None) {
        AfterResponse::RunTool { args, .. } => assert_eq!(args["command"], "ls"),
        _ => panic!("expected a tool call"),
    }
}
