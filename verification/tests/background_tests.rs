use ravenclaws::background::{BackgroundTask, TaskStatus, TaskStore};
use ravenclaws::error::RavenClawsError;

fn task(id: &str, prompt: &str) -> BackgroundTask {
    BackgroundTask::new(id.to_string(), prompt.to_string(), "System".to_string())
}

#[test]
fn test_submit_task() {
    let mut store = TaskStore::new();
    store.insert(task("t1", "Test prompt"));
    let t = store.get_task("t1").unwrap();
    assert_eq!(t.prompt, "Test prompt");
    assert_eq!(t.system_prompt, "System");
    assert_eq!(t.status, TaskStatus::Pending);
    assert!(t.result.is_none());
}

#[test]
fn test_status_transitions() {
    let mut store = TaskStore::new();
    store.insert(task("t1", "Test"));
    assert_eq!(store.status("t1").unwrap(), TaskStatus::Pending);
    store.cancel("t1").unwrap();
    assert_eq!(store.status("t1").unwrap(), TaskStatus::Cancelled);
}

#[test]
fn test_list_tasks() {
    let mut store = TaskStore::new();
    store.insert(task("t1", "Task 1"));
    store.insert(task("t2", "Task 2"));
    assert_eq!(store.list_tasks().len(), 2);
}

#[test]
fn test_cancel_completed_task_fails() {
    let mut store = TaskStore::new();
    store.insert(task("t1", "Test"));
    store.start("t1", "litellm", "m").unwrap();
    store.finish("t1", Ok("done".to_string())).unwrap();
    let result = store.cancel("t1");
    assert!(result.is_err(), "Cancelling a completed task should fail");
    match result {
        Err(e) => assert_eq!(e.message(), "Command execution failed: Cannot cancel task 't1' in status 'completed'"),
        Ok(_) => unreachable!(),
    }
}

#[test]
fn test_resume_incomplete_tasks() {
    let mut store = TaskStore::new();
    store.insert(task("t1", "Task 1"));
    store.insert(task("t2", "Task 2"));
    store.start("t2", "p", "m").unwrap();
    store.finish("t2", Ok("r".to_string())).unwrap();
    let incomplete = store.resume_incomplete();
    assert_eq!(incomplete.len(), 1, "One task should be incomplete");
    assert_eq!(incomplete[0], "t1");
}

#[test]
fn test_task_not_found() {
    let store = TaskStore::new();
    assert!(store.status("nonexistent").is_err());
    assert!(store.get_task("nonexistent").is_err());
}

// ── Additional scenarios ────────────────────────────────────────────────

#[test]
fn task_lifecycle_records_result_and_error() {
    let mut store = TaskStore::new();
    store.insert(task("a", "p1"));
    store.insert(task("b", "p2"));
    let (prompt, system) = store.start("a", "openai", "gpt").unwrap();
    assert_eq!(prompt, "p1");
    assert_eq!(system, "System");
    assert_eq!(store.status("a").unwrap(), TaskStatus::Running);
    store.finish("a", Ok("answer".to_string())).unwrap();
    let a = store.get_task("a").unwrap();
    assert_eq!(a.result.as_deref(), Some("answer"));
    assert_eq!(a.provider.as_deref(), Some("openai"));
    store.start("b", "openai", "gpt").unwrap();
    let _ = store.finish("b", Err(RavenClawsError::Network("down".to_string())));
    assert_eq!(store.status("b").unwrap(), TaskStatus::Failed);
    assert!(store.get_task("b").unwrap().error.is_some());
}

#[test]
fn insert_replaces_task_with_same_id() {
    let mut store = TaskStore::new();
    store.insert(task("a", "old"));
    store.insert(task("a", "new"));
    assert_eq!(store.len(), 1);
    assert_eq!(store.get_task("a").unwrap().prompt, "new");
}

#[test]
fn status_names() {
    assert_eq!(TaskStatus::Pending.name(), "pending");
    assert_eq!(TaskStatus::Cancelled.name(), "cancelled");
}
