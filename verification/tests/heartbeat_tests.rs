use ravenclaws::error::RavenClawsError;
use ravenclaws::heartbeat::{
    state_file_name, AfterAssessment, AfterPlan, HeartbeatAgent, HeartbeatConfig, HeartbeatState, TickStart,
};
use ravenclaws::llm::{ChatMessage, ChatResponse, Choice};

fn reply(text: &str) -> ChatResponse {
    ChatResponse {
        id: "r".to_string(),
        object: "chat.completion".to_string(),
        created: 0,
        model: "m".to_string(),
        choices: vec![Choice {
            index: 0,
            message: ChatMessage::new("assistant", text),
            finish_reason: None,
            tool_calls: None,
        }],
        usage: None,
    }
}

#[test]
fn test_heartbeat_config_default() {
    let config = HeartbeatConfig::default();
    assert_eq!(config.tick_interval_secs, 300);
    assert_eq!(config.max_iterations_per_tick, 5);
    assert!(config.enable_tools);
    assert_eq!(config.max_ticks, 0);
}

#[test]
fn test_heartbeat_state_new() {
    let state = HeartbeatState::new("test-id".to_string(), "Test goal".to_string());
    assert_eq!(state.id, "test-id");
    assert_eq!(state.goal, "Test goal");
    assert_eq!(state.tick, 0);
    assert!(!state.completed);
    assert!(state.last_assessment.is_none());
}

#[test]
fn test_heartbeat_state_progress() {
    let mut state = HeartbeatState::new("progress-test".to_string(), "Progress goal".to_string());
    state.tick = 5;
    state.progress = "Made significant progress".to_string();
    state.last_assessment = Some("Assessment text".to_string());
    state.last_plan = Some("Plan text".to_string());
    state.last_result = Some("Result text".to_string());
    assert_eq!(state.tick, 5);
    assert_eq!(state.progress, "Made significant progress");
    assert_eq!(state.last_assessment.as_deref(), Some("Assessment text"));
}

#[test]
fn test_heartbeat_state_completed() {
    let mut state = HeartbeatState::new("complete-test".to_string(), "Complete goal".to_string());
    state.completed = true;
    assert!(state.completed);
}

#[test]
fn test_heartbeat_config_custom() {
    let config = HeartbeatConfig {
        goal: "Custom goal".to_string(),
        tick_interval_secs: 60,
        max_iterations_per_tick: 3,
        workdir: "/tmp/custom".to_string(),
        max_ticks: 10,
        enable_tools: false,
    };
    assert_eq!(config.goal, "Custom goal");
    assert_eq!(config.tick_interval_secs, 60);
    assert_eq!(config.max_iterations_per_tick, 3);
    assert_eq!(config.max_ticks, 10);
    assert!(!config.enable_tools);
}

#[test]
fn test_heartbeat_build_system_prompt() {
    let config = HeartbeatConfig { goal: "Test goal for prompt".to_string(), ..HeartbeatConfig::default() };
    assert!(config.goal.contains("Test goal for prompt"));
    let agent = HeartbeatAgent::resume_or_start(config, "hb".to_string(), None);
    let prompt = agent.build_system_prompt();
    assert!(prompt.contains("Your overarching goal: Test goal for prompt"));
    assert!(prompt.ends_with("Current tick: 0"));
}

// ── Additional scenarios ────────────────────────────────────────────────

#[test]
fn heartbeat_state_file_name() {
    assert_eq!(state_file_name("abc"), "heartbeat-abc.json");
}

#[test]
fn heartbeat_resume_keeps_saved_state() {
    let mut saved = HeartbeatState::new("old".to_string(), "g".to_string());
    saved.tick = 7;
    let agent = HeartbeatAgent::resume_or_start(HeartbeatConfig::default(), "new".to_string(), Some(saved));
    assert_eq!(agent.id(), "old");
    assert_eq!(agent.state.tick, 7);
}

#[test]
fn heartbeat_first_assessment_prompt_mentions_first_tick() {
    let config = HeartbeatConfig { goal: "G".to_string(), ..HeartbeatConfig::default() };
    let mut agent = HeartbeatAgent::resume_or_start(config, "hb".to_string(), None);
    match agent.start_tick() {
        TickStart::Assess { system, prompt } => {
            assert!(system.ends_with("Current tick: 1"));
            assert!(prompt.contains("No progress yet — this is the first tick."));
            assert!(prompt.contains("Tick number: 1"));
        },
        _ => panic!("expected an assessment"),
    }
    assert_eq!(agent.state.tick, 1);
}

#[test]
fn heartbeat_stops_at_tick_limit() {
    let config = HeartbeatConfig { goal: "G".to_string(), max_ticks: 2, ..HeartbeatConfig::default() };
    let mut agent = HeartbeatAgent::resume_or_start(config, "hb".to_string(), None);
    agent.state.tick = 2;
    agent.state.progress = "p".to_string();
    match agent.start_tick() {
        TickStart::Finished(r) => assert_eq!(r, "Heartbeat completed after 2 ticks. Final progress: p"),
        _ => panic!("expected the heartbeat to finish"),
    }
}

#[test]
fn heartbeat_goal_complete_ends() {
    let mut agent = HeartbeatAgent::resume_or_start(HeartbeatConfig::default(), "hb".to_string(), None);
    let _ = agent.start_tick();
    match agent.after_assessment(Ok(reply("all done: goal_complete"))) {
        AfterAssessment::Complete(p) => {
            assert_eq!(p, "Goal completed at tick 1.\nAssessment: all done: goal_complete");
        },
        _ => panic!("expected completion"),
    }
    assert!(agent.state.completed);
    assert!(matches!(agent.start_tick(), TickStart::Finished(_)));
}

#[test]
fn heartbeat_failed_assessment_is_recorded() {
    let mut agent = HeartbeatAgent::resume_or_start(HeartbeatConfig::default(), "hb".to_string(), None);
    let _ = agent.start_tick();
    let outcome = agent.after_assessment(Err(RavenClawsError::Network("down".to_string())));
    assert!(matches!(outcome, AfterAssessment::EndTick));
    assert_eq!(agent.state.progress, "\n\n## Tick 1 (ASSESSMENT FAILED)\n**Error:** Network error: down");
}

#[test]
fn heartbeat_plan_without_tools_is_recorded() {
    let config = HeartbeatConfig { enable_tools: false, ..HeartbeatConfig::default() };
    let mut agent = HeartbeatAgent::resume_or_start(config, "hb".to_string(), None);
    let _ = agent.start_tick();
    assert!(matches!(agent.after_assessment(Ok(reply("half way"))), AfterAssessment::Plan { .. }));
    let outcome = agent.after_plan("half way", Ok(reply("do more")));
    assert!(matches!(outcome, AfterPlan::EndTick));
    assert_eq!(agent.state.progress, "\n\n## Tick 1\n**Assessment:** half way\n**Plan:** do more");
}
