use ravenclaws::healing::{
    is_past_dead_timeout, FailureRecord, HealingCircuitBreaker, HealingCircuitState, HealingConfig, RetryStep,
    SelfHealingEngine,
};

#[test]
fn test_healing_config_default() {
    let config = HealingConfig::default();
    assert_eq!(config.max_retries, 3);
    assert_eq!(config.base_delay_ms, 1000);
    assert_eq!(config.max_delay_ms, 30000);
    assert_eq!(config.circuit_breaker_threshold, 5);
    assert_eq!(config.circuit_breaker_recovery_secs, 30);
}

#[test]
fn test_circuit_breaker_initial_state() {
    let mut cb = HealingCircuitBreaker::new(30, 5);
    assert_eq!(cb.state, HealingCircuitState::Closed);
    assert_eq!(cb.failure_count, 0);
    assert!(cb.can_execute());
}

#[test]
fn test_circuit_breaker_opens_after_threshold() {
    let mut cb = HealingCircuitBreaker::new(30, 3);
    assert!(cb.can_execute());

    cb.record_failure();
    assert!(cb.can_execute());
    assert_eq!(cb.failure_count, 1);

    cb.record_failure();
    assert!(cb.can_execute());
    assert_eq!(cb.failure_count, 2);

    cb.record_failure();
    assert_eq!(cb.state, HealingCircuitState::Open);
    assert!(!cb.can_execute());
    assert_eq!(cb.failure_count, 3);
}

#[test]
fn healing_test_circuit_breaker_success_resets() {
    let mut cb = HealingCircuitBreaker::new(30, 3);
    cb.record_failure();
    cb.record_failure();
    assert_eq!(cb.failure_count, 2);

    cb.record_success();
    assert_eq!(cb.state, HealingCircuitState::Closed);
    assert_eq!(cb.failure_count, 0);
}

#[test]
fn test_failure_record_new() {
    let record = FailureRecord::new("agent-1", "timeout");
    assert_eq!(record.agent_id, "agent-1");
    assert_eq!(record.failure_count, 1);
    assert_eq!(record.last_error, "timeout");
    assert!(!record.is_dead);
}

#[test]
fn test_failure_record_add_failure() {
    let mut record = FailureRecord::new("agent-1", "timeout");
    record.add_failure("connection refused");
    assert_eq!(record.failure_count, 2);
    assert_eq!(record.last_error, "connection refused");
}

#[test]
fn test_failure_record_success_resets() {
    let mut record = FailureRecord::new("agent-1", "timeout");
    record.add_failure("connection refused");
    assert_eq!(record.failure_count, 2);

    record.record_success();
    assert_eq!(record.failure_count, 0);
    assert!(!record.is_dead);
}

#[test]
fn test_self_healing_engine_new() {
    let engine = SelfHealingEngine::new();
    assert_eq!(engine.tracked_agents(), 0);
    assert_eq!(engine.dead_agent_count(), 0);
}

#[test]
fn test_self_healing_engine_record_failure() {
    let mut engine = SelfHealingEngine::new();
    let count = engine.record_failure("agent-1", "timeout");
    assert_eq!(count, 1);
    assert_eq!(engine.failure_count("agent-1"), 1);
    assert!(engine.is_healthy("agent-1"));
}

#[test]
fn test_self_healing_engine_marks_dead() {
    let mut engine = SelfHealingEngine::new();
    engine.config.max_failed_tasks = 3;

    engine.record_failure("agent-1", "error 1");
    engine.record_failure("agent-1", "error 2");
    engine.record_failure("agent-1", "error 3");

    assert!(!engine.is_healthy("agent-1"));
    assert!(engine.all_dead_workers().contains(&"agent-1".to_string()));
}

#[test]
fn test_self_healing_engine_circuit_breaker() {
    let mut engine = SelfHealingEngine::new();
    engine.config.circuit_breaker_threshold = 3;

    engine.record_failure("agent-1", "error 1");
    engine.record_failure("agent-1", "error 2");
    engine.record_failure("agent-1", "error 3");

    assert_eq!(engine.circuit_state("agent-1"), Some(HealingCircuitState::Open));
    assert!(!engine.is_healthy("agent-1"));
}

#[test]
fn test_self_healing_engine_success_resets() {
    let mut engine = SelfHealingEngine::new();
    engine.config.circuit_breaker_threshold = 3;

    engine.record_failure("agent-1", "error 1");
    engine.record_failure("agent-1", "error 2");
    assert_eq!(engine.failure_count("agent-1"), 2);

    engine.record_success("agent-1");
    assert_eq!(engine.failure_count("agent-1"), 0);
    assert_eq!(engine.circuit_state("agent-1"), Some(HealingCircuitState::Closed));
}

#[test]
fn test_delay_for_attempt() {
    let engine = SelfHealingEngine::new();
    // Attempt 0: base * 2^0 = 1000ms + jitter
    let d0 = engine.delay_for_attempt(0);
    assert!(d0 >= 700);
    assert!(d0 <= 1300);

    // Attempt 1: base * 2^1 = 2000ms + jitter
    let d1 = engine.delay_for_attempt(1);
    assert!(d1 >= 1400);
    assert!(d1 <= 2600);

    // Attempt 4: base * 2^4 = 16000ms, capped at 30000ms
    let d4 = engine.delay_for_attempt(4);
    assert!(d4 <= 30000 + 9000);
}

#[test]
fn test_reset() {
    let mut engine = SelfHealingEngine::new();
    engine.record_failure("agent-1", "error");
    engine.record_failure("agent-2", "error");
    assert_eq!(engine.tracked_agents(), 2);

    engine.reset();
    assert_eq!(engine.tracked_agents(), 0);
}

#[test]
fn test_reset_agent() {
    let mut engine = SelfHealingEngine::new();
    engine.record_failure("agent-1", "error");
    engine.record_failure("agent-2", "error");
    assert_eq!(engine.tracked_agents(), 2);

    engine.reset_agent("agent-1");
    assert_eq!(engine.tracked_agents(), 1);
    assert_eq!(engine.failure_count("agent-1"), 0);
}

#[test]
fn test_dead_workers_empty_initially() {
    let engine = SelfHealingEngine::new();
    assert!(engine.dead_workers().is_empty());
    assert!(engine.all_dead_workers().is_empty());
}

#[test]
fn test_open_circuit_count() {
    let mut engine = SelfHealingEngine::new();
    engine.config.circuit_breaker_threshold = 2;

    engine.record_failure("agent-1", "error");
    engine.record_failure("agent-1", "error");
    engine.record_failure("agent-2", "error");
    engine.record_failure("agent-2", "error");

    assert_eq!(engine.open_circuit_count(), 2);
}

// ── Retry decisions (the decisions of `retry_with_backoff`) ─────────────

#[test]
fn test_retry_with_backoff_succeeds_on_first_attempt() {
    let engine = SelfHealingEngine::new();
    match engine.retry_step("agent-1", 0, Ok::<i32, String>(42), true) {
        RetryStep::Return(r) => assert_eq!(r, Ok(42)),
        _ => panic!("expected the result"),
    }
}

/// Runs the retry decisions over a scripted sequence of attempt outcomes.
fn run_retries(engine: &SelfHealingEngine, outcomes: &[Result<i32, String>], transient: fn(&str) -> bool) -> Result<i32, String> {
    let mut attempt: u32 = 0;
    loop {
        let outcome = outcomes[attempt as usize].clone();
        let is_transient = match &outcome {
            Err(e) => transient(e),
            Ok(_) => true,
        };
        match engine.retry_step("agent-1", attempt, outcome, is_transient) {
            RetryStep::Return(r) => return r,
            RetryStep::Retry { next_attempt, delay_ms } => {
                assert!(delay_ms.is_some());
                attempt = next_attempt;
            },
        }
    }
}

#[test]
fn test_retry_with_backoff_succeeds_after_retries() {
    let engine = SelfHealingEngine::new();
    let outcomes = vec![Err("transient error".to_string()), Err("transient error".to_string()), Ok(42)];
    assert_eq!(run_retries(&engine, &outcomes, |_| true), Ok(42));
}

#[test]
fn test_retry_with_backoff_fails_on_non_transient() {
    let engine = SelfHealingEngine::new();
    let outcomes = vec![Err("non-transient error".to_string()); 4];
    let result = run_retries(&engine, &outcomes, |e| !e.contains("non-transient"));
    assert!(result.is_err());
    assert!(result.unwrap_err().contains("non-transient"));
}

#[test]
fn test_retry_with_backoff_exhausts_retries() {
    let mut engine = SelfHealingEngine::new();
    engine.config.max_retries = 2; // 3 total attempts (0, 1, 2)
    let outcomes = vec![Err("persistent transient error".to_string()); 3];
    let result = run_retries(&engine, &outcomes, |_| true);
    assert!(result.is_err());
    let err = result.unwrap_err();
    assert!(err.contains("All 3 attempts failed"));
    assert!(err.contains("persistent transient error"));
    assert_eq!(err, "All 3 attempts failed for agent 'agent-1': persistent transient error");
}

#[test]
fn breaker_half_opens_after_recovery_period() {
    let mut cb = HealingCircuitBreaker::new(30, 1);
    cb.record_failure();
    assert_eq!(cb.state, HealingCircuitState::Open);
    assert!(!cb.can_execute_after(Some(29_000_000_000)));
    assert_eq!(cb.state, HealingCircuitState::Open);
    assert!(cb.can_execute_after(Some(30_000_000_000)));
    assert_eq!(cb.state, HealingCircuitState::HalfOpen);
}

#[test]
fn open_breaker_without_time_stays_closed_to_requests() {
    let mut cb = HealingCircuitBreaker::new(30, 1);
    cb.record_failure();
    assert!(!cb.can_execute_after(None));
}

#[test]
fn dead_timeout_boundary() {
    assert!(!is_past_dead_timeout(60_000_000_000, 60));
    assert!(is_past_dead_timeout(60_000_000_001, 60));
}

#[test]
fn engine_tracks_distinct_agents_and_dead_ones() {
    let mut engine = SelfHealingEngine::new();
    engine.config.max_failed_tasks = 2;
    engine.record_failure("a", "e");
    engine.record_failure("b", "e");
    engine.record_failure("a", "e2");
    assert_eq!(engine.tracked_agents(), 2);
    assert_eq!(engine.dead_agent_count(), 1);
    assert_eq!(engine.all_dead_workers(), vec!["a".to_string()]);
    // A freshly dead worker is not yet ready for replacement.
    assert!(engine.dead_workers().is_empty());
    engine.record_success("a");
    assert_eq!(engine.dead_agent_count(), 0);
}

#[test]
fn untracked_agent_is_healthy() {
    let mut engine = SelfHealingEngine::new();
    assert!(engine.is_healthy("nobody"));
    assert_eq!(engine.failure_count("nobody"), 0);
    assert_eq!(engine.circuit_state("nobody"), None);
}

#[test]
fn test_dead_workers_only_dead_ones() {
    let mut engine = ravenclaws::healing::SelfHealingEngine::new();
    engine.config.worker_dead_after_secs = 0;
    assert!(engine.dead_workers().is_empty());
    for _ in 0..10 {
        engine.record_failure("agent-1", "boom");
    }
    engine.record_failure("agent-2", "boom");
    assert_eq!(engine.dead_workers(), vec!["agent-1".to_string()]);
}

#[test]
fn retry_step_carries_the_backoff_delay() {
    let config = HealingConfig { jitter_percent: 0, base_delay_ms: 100, max_delay_ms: 10_000, max_retries: 5, ..HealingConfig::default() };
    let engine = SelfHealingEngine::with_config(config);
    match engine.retry_step("w", 2, Err::<i32, String>("timeout".to_string()), true) {
        RetryStep::Retry { next_attempt, delay_ms } => {
            assert_eq!(next_attempt, 3);
            assert_eq!(delay_ms, Some(400));
        },
        _ => panic!("expected a retry"),
    }
}

#[test]
fn dead_agent_health_follows_the_dead_timeout() {
    let mut engine = SelfHealingEngine::new();
    engine.config.max_failed_tasks = 3;
    engine.config.worker_dead_after_secs = 60;
    engine.record_failure("agent-1", "error 1");
    engine.record_failure("agent-1", "error 2");
    engine.record_failure("agent-1", "error 3");
    assert!(!engine.is_healthy_after("agent-1", None, 0));
    assert!(!engine.is_healthy_after("agent-1", None, 60_000_000_000));
    assert!(engine.is_healthy_after("agent-1", None, 60_000_000_001));
    assert!(engine.is_healthy_after("agent-2", None, 0));
}
