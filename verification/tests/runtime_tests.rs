use zene::error::ZeneError;
use zene::contracts::{AgentEvent, RunResult, TokenUsage};
use zene::engine_runs::run_end_event;
use zene::runtime::{CancellationToken, RunSnapshot, RunStatus};
use zene::engine_runs::{default_strategy, request_strategy, RunTable};
use zene::contracts::{ExecutionStrategy, RunRequest};

#[test]
fn test_run_snapshot_lifecycle() {
    let mut snapshot = RunSnapshot::new("run-1".to_string(), "session-1".to_string());

    assert_eq!(snapshot.status, RunStatus::Pending);
    assert!(snapshot.finished_at_ms.is_none());

    snapshot.mark_status(RunStatus::Running);
    assert_eq!(snapshot.status, RunStatus::Running);

    snapshot.mark_completed("done".to_string());
    assert_eq!(snapshot.status, RunStatus::Completed);
    assert_eq!(snapshot.output.as_deref(), Some("done"));
    assert!(snapshot.finished_at_ms.is_some());
}

#[test]
fn test_cancellation_token() {
    let token = CancellationToken::default();
    assert!(!token.is_cancelled());

    token.cancel();
    assert!(token.is_cancelled());
}

#[test]
fn cancellation_is_shared_by_clones() {
    let token = CancellationToken::default();
    let other = token.clone();
    other.cancel();
    assert!(token.is_cancelled());
}

#[test]
fn failed_snapshot_keeps_message_and_code() {
    let mut s = RunSnapshot::new("r".to_string(), "s".to_string());
    s.mark_failed("boom".to_string(), Some("INTERNAL".to_string()));
    assert_eq!(s.status, RunStatus::Failed);
    assert_eq!(s.error_message.as_deref(), Some("boom"));
    assert_eq!(s.error_code.as_deref(), Some("INTERNAL"));
    assert_eq!(s.finished_at_ms, Some(s.updated_at_ms));
}

#[test]
fn completing_clears_error_message() {
    let mut s = RunSnapshot::new("r".to_string(), "s".to_string());
    s.mark_failed("boom".to_string(), None);
    s.mark_completed("ok".to_string());
    assert!(s.error_message.is_none());
    assert_eq!(s.output.as_deref(), Some("ok"));
}

#[test]
fn terminal_statuses() {
    assert!(RunStatus::Completed.is_terminal());
    assert!(RunStatus::Failed.is_terminal());
    assert!(RunStatus::Cancelled.is_terminal());
    assert!(!RunStatus::Pending.is_terminal());
    assert!(!RunStatus::Running.is_terminal());
    assert!(!RunStatus::WaitingTool.is_terminal());
}

#[test]
fn run_table_register_then_get() {
    let mut t = RunTable::new();
    t.register_run("run-1".to_string(), "s-1".to_string(), CancellationToken::default());
    let s = t.get_run_snapshot("run-1").unwrap();
    assert_eq!(s.status, RunStatus::Pending);
    assert_eq!(s.session_id, "s-1");
    assert!(t.get_run_snapshot("run-2").is_none());
}

#[test]
fn run_table_cancel_known_and_unknown() {
    let mut t = RunTable::new();
    let token = CancellationToken::default();
    t.register_run("run-1".to_string(), "s-1".to_string(), token.clone());
    assert!(!t.cancel_run("other"));
    assert!(!token.is_cancelled());
    assert!(t.cancel_run("run-1"));
    assert!(token.is_cancelled());
    assert_eq!(t.get_run_snapshot("run-1").unwrap().status, RunStatus::Cancelled);
}

#[test]
fn run_table_marks() {
    let mut t = RunTable::new();
    t.register_run("a".to_string(), "s".to_string(), CancellationToken::default());
    t.register_run("b".to_string(), "s".to_string(), CancellationToken::default());
    t.update_run_status("a", RunStatus::Running);
    t.mark_run_completed("b", "out".to_string());
    assert_eq!(t.get_run_snapshot("a").unwrap().status, RunStatus::Running);
    let b = t.get_run_snapshot("b").unwrap();
    assert_eq!(b.status, RunStatus::Completed);
    assert_eq!(b.output.as_deref(), Some("out"));
    t.mark_run_failed("a", "Provider error: x".to_string(), Some("PROVIDER_ERROR".to_string()));
    let a = t.get_run_snapshot("a").unwrap();
    assert_eq!(a.status, RunStatus::Failed);
    assert_eq!(a.error_code.as_deref(), Some("PROVIDER_ERROR"));
    t.mark_run_cancelled("zzz");
    assert!(t.get_run_snapshot("zzz").is_none());
}

#[test]
fn strategy_defaults() {
    assert_eq!(default_strategy(true), ExecutionStrategy::Direct);
    assert_eq!(default_strategy(false), ExecutionStrategy::Planned);
    let req = RunRequest {
        prompt: "p".to_string(),
        session_id: "s".to_string(),
        env_vars: None,
        strategy: Some(ExecutionStrategy::Direct),
    };
    assert_eq!(request_strategy(&req, false), ExecutionStrategy::Direct);
    let req2 = RunRequest { strategy: None, ..req };
    assert_eq!(request_strategy(&req2, false), ExecutionStrategy::Planned);
    assert_eq!(request_strategy(&req2, true), ExecutionStrategy::Direct);
}

#[test]
fn cancelled_run_reports_canceled() {
    let mut t = RunTable::new();
    t.register_run("run-c".to_string(), "s".to_string(), CancellationToken::default());
    t.update_run_status("run-c", RunStatus::Running);
    assert!(t.cancel_run("run-c"));
    let s = t.get_run_snapshot("run-c").unwrap();
    assert_eq!(zene::host::final_from_snapshot(&s).status, "CANCELED");
}

fn assert_same_snapshot(a: &RunSnapshot, b: &RunSnapshot) {
    assert_eq!(a.run_id, b.run_id);
    assert_eq!(a.session_id, b.session_id);
    assert_eq!(a.status, b.status);
    assert_eq!(a.started_at_ms, b.started_at_ms);
    assert_eq!(a.updated_at_ms, b.updated_at_ms);
    assert_eq!(a.finished_at_ms, b.finished_at_ms);
    assert_eq!(a.output, b.output);
    assert_eq!(a.error_message, b.error_message);
    assert_eq!(a.error_code, b.error_code);
}

#[test]
fn cancelled_run_stays_cancelled() {
    let mut t = RunTable::new();
    t.register_run("run-k".to_string(), "s".to_string(), CancellationToken::default());
    assert!(t.cancel_run("run-k"));
    let at_cancel = t.get_run_snapshot("run-k").unwrap();
    t.mark_run_completed("run-k", "done".to_string());
    assert_same_snapshot(&t.get_run_snapshot("run-k").unwrap(), &at_cancel);
    t.mark_run_failed("run-k", "boom".to_string(), None);
    assert_same_snapshot(&t.get_run_snapshot("run-k").unwrap(), &at_cancel);
    t.update_run_status("run-k", RunStatus::WaitingTool);
    assert_same_snapshot(&t.get_run_snapshot("run-k").unwrap(), &at_cancel);
    t.mark_run_error("run-k", &ZeneError::Cancelled("again".to_string()));
    t.mark_run_cancelled("run-k");
    assert_same_snapshot(&t.get_run_snapshot("run-k").unwrap(), &at_cancel);
    assert_eq!(zene::host::final_from_snapshot(&at_cancel).status, "CANCELED");
}

#[test]
fn run_errors_are_recorded() {
    let mut t = RunTable::new();
    t.register_run("a".to_string(), "s".to_string(), CancellationToken::default());
    t.register_run("b".to_string(), "s".to_string(), CancellationToken::default());
    t.mark_run_error("a", &ZeneError::ReqwestError("down".to_string()));
    let a = t.get_run_snapshot("a").unwrap();
    assert_eq!(a.status, RunStatus::Failed);
    assert_eq!(a.error_message.as_deref(), Some("Reqwest error: down"));
    assert_eq!(a.error_code.as_deref(), Some("PROVIDER_DOWN"));
    t.mark_run_error("b", &ZeneError::Cancelled("stop".to_string()));
    assert_eq!(t.get_run_snapshot("b").unwrap().status, RunStatus::Cancelled);
}

#[test]
fn end_events() {
    let ok: Result<RunResult, ZeneError> = Ok(RunResult {
        output: "out".to_string(),
        session_id: "s".to_string(),
        usage: TokenUsage::default(),
    });
    assert!(matches!(run_end_event(&ok), AgentEvent::Finished(ref o) if o == "out"));
    let err: Result<RunResult, ZeneError> = Err(ZeneError::ConfigError("x".to_string()));
    match run_end_event(&err) {
        AgentEvent::Error { code, message } => {
            assert_eq!(code, "RUN_FAILED");
            assert_eq!(message, "Configuration error: x");
        }
        other => panic!("unexpected {:?}", other),
    }
}
