use ravenclaws::eval::{
    check_assertions, check_single_assertion, eval_agent_config, failure_trace, loop_failure_result, success_trace,
    task_passed, task_score, Assertion, RunTrace, StepType, ToolCallTrace,
};

#[test]
fn test_assertion_contains_pass() {
    let result = check_single_assertion("hello world", &Assertion::Contains("world".to_string()), None);
    assert!(result.passed);
    assert!(result.details.contains("contains"));
}

#[test]
fn test_assertion_contains_fail() {
    let result = check_single_assertion("hello world", &Assertion::Contains("foo".to_string()), None);
    assert!(!result.passed);
}

#[test]
fn test_assertion_not_contains_pass() {
    let result = check_single_assertion("hello world", &Assertion::NotContains("foo".to_string()), None);
    assert!(result.passed);
}

#[test]
fn test_assertion_not_contains_fail() {
    let result = check_single_assertion("hello world", &Assertion::NotContains("world".to_string()), None);
    assert!(!result.passed);
}

#[test]
fn test_assertion_exact_pass() {
    let result = check_single_assertion("hello", &Assertion::Exact("hello".to_string()), None);
    assert!(result.passed);
}

#[test]
fn test_assertion_exact_fail() {
    let result = check_single_assertion("world", &Assertion::Exact("hello".to_string()), None);
    assert!(!result.passed);
}

#[test]
fn test_assertion_regex_pass() {
    let result = check_single_assertion("hello 123", &Assertion::Regex(r"\d+".to_string()), None);
    assert!(result.passed);
}

#[test]
fn test_assertion_regex_fail() {
    let result = check_single_assertion("hello", &Assertion::Regex(r"\d+".to_string()), None);
    assert!(!result.passed);
}

#[test]
fn test_assertion_non_empty_pass() {
    let result = check_single_assertion("hello", &Assertion::NonEmpty, None);
    assert!(result.passed);
}

#[test]
fn test_assertion_non_empty_fail() {
    let result = check_single_assertion("", &Assertion::NonEmpty, None);
    assert!(!result.passed);
}

#[test]
fn test_assertion_min_length_pass() {
    let result = check_single_assertion("hello", &Assertion::MinLength(3), None);
    assert!(result.passed);
}

#[test]
fn test_assertion_min_length_fail() {
    let result = check_single_assertion("hi", &Assertion::MinLength(5), None);
    assert!(!result.passed);
}

#[test]
fn test_assertion_max_length_pass() {
    let result = check_single_assertion("hi", &Assertion::MaxLength(5), None);
    assert!(result.passed);
}

#[test]
fn test_assertion_max_length_fail() {
    let result = check_single_assertion("hello world", &Assertion::MaxLength(5), None);
    assert!(!result.passed);
}

#[test]
fn test_check_assertions_empty() {
    let (results, passed, failed) = check_assertions("hello", &[], None);
    assert!(results.is_empty());
    assert_eq!(passed, 0);
    assert_eq!(failed, 0);
}

#[test]
fn test_check_assertions_multiple() {
    let assertions =
        vec![Assertion::Contains("hello".to_string()), Assertion::Contains("world".to_string()), Assertion::NonEmpty];
    let (results, passed, failed) = check_assertions("hello world", &assertions, None);
    assert_eq!(passed, 3);
    assert_eq!(failed, 0);
    assert_eq!(results.len(), 3);
}

fn sample_trace() -> RunTrace {
    RunTrace {
        task_name: "test".to_string(),
        started_at: "2026-01-01T00:00:00Z".to_string(),
        ended_at: "2026-01-01T00:00:01Z".to_string(),
        duration_ms: 1000,
        iterations: 1,
        steps: vec![],
        llm_calls: vec![],
        tool_calls: vec![
            ToolCallTrace {
                iteration: 0,
                tool_name: "web_search".to_string(),
                arguments: serde_json::from_str("{\"query\": \"test\"}").unwrap(),
                success: true,
                output_preview: "results".to_string(),
                duration_ms: 100,
            },
            ToolCallTrace {
                iteration: 0,
                tool_name: "read_file".to_string(),
                arguments: serde_json::from_str("{\"path\": \"/tmp/test\"}").unwrap(),
                success: true,
                output_preview: "content".to_string(),
                duration_ms: 50,
            },
        ],
        final_response: "response".to_string(),
    }
}

#[test]
fn test_check_assertions_tool_called() {
    let trace = sample_trace();
    let (results, passed, failed) =
        check_assertions("response", &[Assertion::ToolCalled("web_search".to_string())], Some(&trace));
    assert_eq!(passed, 1);
    assert_eq!(failed, 0);
    assert!(results[0].passed);

    let (results, passed, failed) =
        check_assertions("response", &[Assertion::ToolCalled("nonexistent".to_string())], Some(&trace));
    assert_eq!(passed, 0);
    assert_eq!(failed, 1);
    assert!(!results[0].passed);

    let (results, passed, failed) =
        check_assertions("response", &[Assertion::ToolNotCalled("nonexistent".to_string())], Some(&trace));
    assert_eq!(passed, 1);
    assert_eq!(failed, 0);
    assert!(results[0].passed);

    let (results, passed, failed) =
        check_assertions("response", &[Assertion::ToolNotCalled("web_search".to_string())], Some(&trace));
    assert_eq!(passed, 0);
    assert_eq!(failed, 1);
    assert!(!results[0].passed);
}

#[test]
fn test_assertion_regex_invalid_pattern() {
    let result = check_single_assertion("hello", &Assertion::Regex(r"[invalid".to_string()), None);
    assert!(!result.passed);
    assert!(result.details.contains("Invalid regex"));
}

// ── Additional scenarios ────────────────────────────────────────────────

#[test]
fn eval_task_helpers() {
    let c = eval_agent_config(4);
    assert_eq!(c.max_iterations, 4);
    assert!(c.enable_tools && !c.require_approval && !c.no_final_required);
    let t = success_trace("t", "a".to_string(), "b".to_string(), 9, 4, "answer");
    assert_eq!(t.steps[0].step_type, StepType::Final);
    assert_eq!(t.final_response, "answer");
    let f = failure_trace("t", "a".to_string(), "b".to_string(), 9, "boom");
    assert_eq!(f.steps[0].content, "Agent loop failed: boom");
    assert_eq!(f.iterations, 0);
    let r = loop_failure_result("boom");
    assert_eq!(r.assertion, "agent_loop");
    assert!(!r.passed);
    assert_eq!(task_score(0, 0, 0, "short"), (0, 1));
    assert_eq!(task_score(0, 0, 0, "long enough answer"), (1, 1));
    assert_eq!(task_score(4, 3, 1, "x"), (3, 4));
    assert_eq!(task_score(4, 1, 1, "x"), (0, 1));
    assert!(task_passed(0, "x"));
    assert!(!task_passed(0, ""));
    assert!(!task_passed(1, "x"));
}

#[test]
fn assertion_details_are_exact() {
    let r = check_single_assertion("hello", &Assertion::MinLength(3), None);
    assert_eq!(r.assertion, "min_length: 3");
    let r = check_single_assertion("hello", &Assertion::Exact("hello".to_string()), None);
    assert!(r.passed);
}

#[test]
fn length_assertions_count_characters() {
    let r = check_single_assertion("h\u{e9}llo", &Assertion::MaxLength(5), None);
    assert!(r.passed);
    assert_eq!(r.details, "Response length 5 <= 5");
    let r = check_single_assertion("\u{e9}", &Assertion::MinLength(2), None);
    assert!(!r.passed);
    assert_eq!(r.details, "Response length 1 < 2");
}

#[test]
fn exact_assertion_compares_whole_response() {
    let r = check_single_assertion(" hello ", &Assertion::Exact("hello".to_string()), None);
    assert!(!r.passed);
    assert_eq!(r.details, "Expected 'hello', got ' hello '");
    let r = check_single_assertion("hello", &Assertion::Exact("hello".to_string()), None);
    assert_eq!(r.details, "Response matches exactly");
}
