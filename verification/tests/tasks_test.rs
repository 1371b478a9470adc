use axum_apcore::config::ApcoreSettings;
use axum_apcore::engine::tasks::{TaskManager, TaskStatus, UtcInstant};
use axum_apcore::errors::AxumApcoreError;

fn make_manager() -> TaskManager {
    let settings = ApcoreSettings::default();
    TaskManager::from_settings(&settings)
}

fn parse_json(text: &str) -> serde_json::Value {
    serde_json::from_str(text).unwrap()
}

#[test]
fn test_submit_and_get_status() {
    let mut mgr = make_manager();
    let (id, _token) = mgr.submit("task-1".into(), "mod.a".into()).unwrap();
    assert_eq!(id, "task-1");
    assert!(matches!(mgr.get_status("task-1"), Some(TaskStatus::Running)));
}

#[test]
fn test_complete_task() {
    let mut mgr = make_manager();
    mgr.submit("task-1".into(), "mod.a".into()).unwrap();
    mgr.complete("task-1", parse_json(r#"{"result": 42}"#));
    assert!(matches!(mgr.get_status("task-1"), Some(TaskStatus::Completed)));
}

#[test]
fn test_get_result() {
    let mut mgr = make_manager();
    mgr.submit("task-1".into(), "mod.a".into()).unwrap();
    assert!(mgr.get_result("task-1").is_none()); // Not completed yet
    mgr.complete("task-1", parse_json(r#"{"val": 1}"#));
    assert_eq!(mgr.get_result("task-1").unwrap(), parse_json(r#"{"val": 1}"#));
}

#[test]
fn test_fail_task() {
    let mut mgr = make_manager();
    mgr.submit("task-1".into(), "mod.a".into()).unwrap();
    mgr.fail("task-1", "something went wrong".into());
    assert!(matches!(mgr.get_status("task-1"), Some(TaskStatus::Failed)));
}

#[test]
fn test_cancel_task() {
    let mut mgr = make_manager();
    let (_id, token) = mgr.submit("task-1".into(), "mod.a".into()).unwrap();
    assert!(!token.is_cancelled());
    assert!(mgr.cancel("task-1"));
    assert!(token.is_cancelled());
    assert!(matches!(mgr.get_status("task-1"), Some(TaskStatus::Cancelled)));
}

#[test]
fn test_cancel_completed_task_fails() {
    let mut mgr = make_manager();
    mgr.submit("task-1".into(), "mod.a".into()).unwrap();
    mgr.complete("task-1", serde_json::Value::Null);
    assert!(!mgr.cancel("task-1"));
}

#[test]
fn test_get_status_nonexistent() {
    let mgr = make_manager();
    assert!(mgr.get_status("nonexistent").is_none());
}

#[test]
fn test_list_tasks() {
    let mut mgr = make_manager();
    mgr.submit("t1".into(), "mod.a".into()).unwrap();
    mgr.submit("t2".into(), "mod.b".into()).unwrap();
    mgr.complete("t1", serde_json::Value::Null);

    let all = mgr.list_tasks(None);
    assert_eq!(all.len(), 2);

    let running = mgr.list_tasks(Some("running"));
    assert_eq!(running.len(), 1);
    assert_eq!(running[0].task_id, "t2");
}

#[test]
fn test_count() {
    let mut mgr = make_manager();
    mgr.submit("t1".into(), "mod.a".into()).unwrap();
    mgr.submit("t2".into(), "mod.b".into()).unwrap();
    mgr.complete("t1", serde_json::Value::Null);
    let (running, completed, failed, cancelled) = mgr.count();
    assert_eq!(running, 1);
    assert_eq!(completed, 1);
    assert_eq!(failed, 0);
    assert_eq!(cancelled, 0);
}

#[test]
fn test_cleanup() {
    let mut mgr = make_manager();
    mgr.submit("t1".into(), "mod.a".into()).unwrap();
    mgr.complete("t1", serde_json::Value::Null);
    // Cleanup with 0 age = remove everything not running
    let removed = mgr.cleanup(0);
    assert_eq!(removed, 1);
}

#[test]
fn test_get_task_info() {
    let mut mgr = make_manager();
    mgr.submit("t1".into(), "mod.a".into()).unwrap();
    let info = mgr.get_task_info("t1").unwrap();
    assert_eq!(info.task_id, "t1");
    assert_eq!(info.module_id, "mod.a");
    assert_eq!(info.status, "Running");
}

#[test]
fn submitted_task_runs_and_restated_status_sticks() {
    let mut mgr = make_manager();
    mgr.submit("a".into(), "m".into()).unwrap();
    mgr.fail("a", "boom".into());
    let info = mgr.get_task_info("a").unwrap();
    assert_eq!(info.status, "Failed");
    assert_eq!(info.error.as_deref(), Some("boom"));
    assert!(info.result.is_none());
    assert!(mgr.get_result("a").is_none());
    // Completing or failing an unknown task changes nothing.
    mgr.complete("zzz", serde_json::Value::Null);
    assert_eq!(mgr.list_tasks(None).len(), 1);
}

#[test]
fn list_filter_ignores_case_and_counts_cover_all() {
    let mut mgr = make_manager();
    for id in ["a", "b", "c", "d"] {
        mgr.submit(id.into(), "m".into()).unwrap();
    }
    mgr.complete("a", serde_json::Value::Null);
    mgr.fail("b", "e".into());
    mgr.cancel("c");
    assert_eq!(mgr.list_tasks(Some("COMPLETED")).len(), 1);
    assert_eq!(mgr.list_tasks(Some("Cancelled")).len(), 1);
    assert_eq!(mgr.list_tasks(Some("pending")).len(), 0);
    assert_eq!(mgr.list_tasks(Some("unknown")).len(), 0);
    let (r, c, f, x) = mgr.count();
    assert_eq!((r, c, f, x), (1, 1, 1, 1));
    assert_eq!(r + c + f + x, mgr.list_tasks(None).len());
}

#[test]
fn limits_refuse_new_tasks() {
    let settings = ApcoreSettings {
        task_max_concurrent: 1,
        task_max_tasks: 2,
        ..ApcoreSettings::default()
    };
    let mut mgr = TaskManager::from_settings(&settings);
    mgr.submit("a".into(), "m".into()).unwrap();
    match mgr.submit("b".into(), "m".into()) {
        Err(AxumApcoreError::Execution(e)) => {
            assert!(e.message == "Maximum concurrent task limit reached (1)", "{}", e.message)
        }
        _ => panic!("Expected the concurrency limit to refuse the task"),
    }
    mgr.complete("a", serde_json::Value::Null);
    mgr.submit("b".into(), "m".into()).unwrap();
    mgr.complete("b", serde_json::Value::Null);
    match mgr.submit("c".into(), "m".into()) {
        Err(AxumApcoreError::Execution(e)) => {
            assert!(e.message == "Maximum task limit reached (2)", "{}", e.message)
        }
        _ => panic!("Expected the capacity limit to refuse the task"),
    }
    assert_eq!(mgr.list_tasks(None).len(), 2);
}

#[test]
fn cleanup_keeps_running_and_recent_tasks() {
    let mut mgr = make_manager();
    mgr.submit("old".into(), "m".into()).unwrap();
    mgr.submit("run".into(), "m".into()).unwrap();
    mgr.complete("old", serde_json::Value::Null);
    // A cutoff far in the past keeps every task.
    let early = UtcInstant { secs: 0, nanos: 0 };
    assert_eq!(mgr.cleanup_at(early, 0), 0);
    // A cutoff far in the future removes the finished task only.
    let late = UtcInstant { secs: 4_000_000_000, nanos: 0 };
    assert_eq!(mgr.cleanup_at(late, 10), 1);
    assert!(mgr.get_status("old").is_none());
    assert!(matches!(mgr.get_status("run"), Some(TaskStatus::Running)));
}

#[test]
fn status_names() {
    assert_eq!(TaskStatus::Pending.name(), "Pending");
    assert_eq!(TaskStatus::Running.name(), "Running");
    assert_eq!(TaskStatus::Completed.name(), "Completed");
    assert_eq!(TaskStatus::Failed.name(), "Failed");
    assert_eq!(TaskStatus::Cancelled.name(), "Cancelled");
}

#[test]
fn creation_time_is_rfc3339_text() {
    let mut mgr = make_manager();
    mgr.submit("t".into(), "m".into()).unwrap();
    let info = mgr.get_task_info("t").unwrap();
    let parsed = chrono::DateTime::parse_from_rfc3339(&info.created_at).unwrap();
    let age = chrono::Utc::now().signed_duration_since(parsed);
    assert!(age.num_seconds() >= 0 && age.num_seconds() < 60, "{}", info.created_at);
}
