use zene::memory::{check_embedding_dim, index_summary, next_document_id, should_index};
use zene::python_env::{join_path, PythonEnv};
use zene::selftest::{redact_secret, role_check, self_test_report};
use zene::session_store::{extension_of, is_session_file, FileSessionStore};
use zene::testing::MockUserInterface;
use zene::ui::{Answer, AutoUserInterface, CliUserInterface, UserInterface};
use zene::worker::{Worker, WorkerMessage};
use zene::core_config::RoleConfig;
use zene::runtime::RunSnapshot;
use zene::strategy::{resolve_strategy, AgentStrategy};
use zene::contracts::ExecutionStrategy;

#[test]
fn answers() {
    assert_eq!(zene::ui::classify_answer("y\n"), Answer::Approve);
    assert_eq!(zene::ui::classify_answer(" YES "), Answer::Approve);
    assert_eq!(zene::ui::classify_answer("All"), Answer::ApproveAll);
    assert_eq!(zene::ui::classify_answer("a"), Answer::ApproveAll);
    assert_eq!(zene::ui::classify_answer("n"), Answer::Deny);
    assert_eq!(zene::ui::classify_answer(""), Answer::Deny);
    assert_eq!(CliUserInterface::decide(None), (false, false));
    assert_eq!(CliUserInterface::decide(Some("a")), (true, true));
    assert_eq!(CliUserInterface::decide(Some("y")), (true, false));
    let _ = CliUserInterface::new();
    assert!(AutoUserInterface.confirm_execution("run_command", "{}"));
    assert_eq!(
        zene::ui::confirmation_prompt("t", "{}"),
        "\n[CONFIRMATION REQUIRED]\nThe agent wants to execute the following tool:\nTool: t\nArgs: {}\nDo you approve this execution? (y/N/a [approve all]): "
    );
}

#[test]
fn mock_interface_records() {
    let mut ui = MockUserInterface::new();
    assert!(ui.get_messages().is_empty());
    ui.show_message("hello");
    ui.show_error("bad");
    assert_eq!(ui.get_messages(), vec!["MSG: hello".to_string(), "ERR: bad".to_string()]);
    assert!(ui.confirm_execution("x", "y"));
}

#[test]
fn venv_paths() {
    let env = PythonEnv::new("/proj".to_string());
    assert_eq!(env.get_venv_python(), "/proj/.venv/bin/python");
    assert_eq!(env.get_venv_pip(), "/proj/.venv/bin/pip");
    assert_eq!(PythonEnv::new("/proj/".to_string()).get_venv_python(), "/proj/.venv/bin/python");
    assert_eq!(PythonEnv::new(String::new()).get_venv_pip(), ".venv/bin/pip");
    assert_eq!(join_path("a", "b"), "a/b");
    assert_eq!(PythonEnv::create_command(true), vec!["uv", "venv", ".venv"]);
    assert_eq!(PythonEnv::create_command(false), vec!["python3", "-m", "venv", ".venv"]);
    assert_eq!(env.install_command(false), vec!["/proj/.venv/bin/pip", "install", "-r", "requirements.txt"]);
}

#[test]
fn session_files() {
    let store = FileSessionStore::new("/tmp/sessions".to_string());
    assert_eq!(store.session_path("abc"), "/tmp/sessions/abc.json");
    assert_eq!(store.events_path("abc"), "/tmp/sessions/abc_events.jsonl");
    assert!(is_session_file("abc.json"));
    assert!(!is_session_file("abc.jsonl"));
    assert!(!is_session_file(".json"));
    assert!(!is_session_file("json"));
    assert_eq!(extension_of("a.tar.gz").as_deref(), Some("gz"));
    assert_eq!(extension_of("a.").as_deref(), Some(""));
}

#[test]
fn memory_rules() {
    assert!(should_index(Some("RS"), 10));
    assert!(should_index(Some("md"), 102399));
    assert!(!should_index(Some("md"), 102400));
    assert!(!should_index(Some("md"), 0));
    assert!(!should_index(Some("exe"), 10));
    assert!(!should_index(None, 10));
    assert!(check_embedding_dim(384).is_ok());
    assert_eq!(check_embedding_dim(3).unwrap_err(), "Embedding dimension mismatch: expected 384, got 3");
    assert_eq!(next_document_id(&vec![]), 1);
    assert_eq!(next_document_id(&vec![3, 9, 2]), 10);
    assert_eq!(index_summary(12), "Indexed 12 files.");
}

#[test]
fn secrets_are_redacted() {
    assert_eq!(redact_secret(""), "");
    assert_eq!(redact_secret("abcd"), "****");
    assert_eq!(redact_secret("sk-123456789"), "****6789");
}

#[test]
fn self_test_checks() {
    let cfg = RoleConfig {
        provider: "openai".to_string(),
        model: "gpt-4".to_string(),
        api_key: "  ".to_string(),
        base_url: None,
        region: None,
    };
    let c = role_check("planner", &cfg, Ok(()));
    assert!(!c.api_key_present);
    assert!(!c.ok);
    assert_eq!(c.error.as_deref(), Some("api_key is empty"));
    assert_eq!(c.api_key_hint, "****");
    let good = RoleConfig { api_key: "sk-abcdef".to_string(), ..cfg.clone() };
    let ok = role_check("executor", &good, Ok(()));
    assert!(ok.ok);
    assert!(ok.error.is_none());
    let failed = role_check("reflector", &good, Err("Unsupported provider: x".to_string()));
    assert!(!failed.ok);
    let report = self_test_report(vec![ok.clone()]);
    assert!(report.ok);
    assert_eq!(report.status, "PASS");
    let report = self_test_report(vec![ok, failed]);
    assert!(!report.ok);
    assert_eq!(report.status, "FAIL");
}

#[test]
fn worker_protocol() {
    assert_eq!(Worker::request_text("  \n").unwrap_err(), "worker expected a JSON RunRequest on stdin");
    assert_eq!(Worker::request_text(" {\"a\":1}\n").unwrap(), "{\"a\":1}");
    match Worker::closing("run-9", None) {
        WorkerMessage::TransportError { message } => {
            assert_eq!(message, "run snapshot not found for run_id run-9")
        }
        other => panic!("unexpected {:?}", other),
    }
    let s = RunSnapshot::new("run-9".to_string(), "s".to_string());
    assert!(matches!(Worker::closing("run-9", Some(s)), WorkerMessage::Snapshot(_)));
    assert!(matches!(Worker::started("r", "s"), WorkerMessage::RunStarted { .. }));
}

#[test]
fn strategies() {
    assert!(resolve_strategy(ExecutionStrategy::Planned).plans_first());
    assert!(!resolve_strategy(ExecutionStrategy::Direct).plans_first());
    assert!(matches!(resolve_strategy(ExecutionStrategy::Direct), AgentStrategy::Direct(_)));
}

#[test]
fn stream_is_numbered_from_one() {
    let mut st = zene::contracts::EventStamper::new("run-1", "s-1");
    let events = vec![
        zene::contracts::AgentEvent::PlanningStarted,
        zene::contracts::AgentEvent::ThoughtDelta("hm".to_string()),
        zene::contracts::AgentEvent::Finished("done".to_string()),
    ];
    let mut seqs = Vec::new();
    for (i, e) in events.iter().enumerate() {
        let env = st.next(1000 + i as i64, e, format!("p{}", i));
        assert_eq!(env.run_id, "run-1");
        assert_eq!(env.session_id, "s-1");
        assert_eq!(env.ts_ms, 1000 + i as i64);
        assert_eq!(env.payload, format!("p{}", i));
        seqs.push((env.seq, env.event_type));
    }
    assert_eq!(
        seqs,
        vec![
            (1, "PlanningStarted".to_string()),
            (2, "ThoughtDelta".to_string()),
            (3, "Finished".to_string())
        ]
    );
    assert_eq!(st.last_seq, 3);
}

#[test]
fn task_history_entries() {
    let task = zene::core_plan::Task::adhoc("fix it");
    match zene::executor::task_opening(&task) {
        zene::executor::HistoryEntry::Instruction(s) => {
            assert!(s.starts_with("Current Active Task: 0\nDescription: fix it\n\n"))
        }
        other => panic!("unexpected entry {:?}", other),
    }
    match zene::executor::reply_entry("", 2) {
        zene::executor::HistoryEntry::Reply { text, with_tool_calls } => {
            assert_eq!(text, None);
            assert!(with_tool_calls);
        }
        other => panic!("unexpected entry {:?}", other),
    }
    match zene::executor::reply_entry("answer", 0) {
        zene::executor::HistoryEntry::Reply { text, with_tool_calls } => {
            assert_eq!(text.as_deref(), Some("answer"));
            assert!(!with_tool_calls);
        }
        other => panic!("unexpected entry {:?}", other),
    }
    let ids = vec!["c1".to_string(), "c2".to_string()];
    let results = vec!["r1".to_string(), "r2".to_string()];
    let entries = zene::executor::tool_result_entries(&ids, &results);
    assert_eq!(entries.len(), 2);
    match &entries[1] {
        zene::executor::HistoryEntry::ToolResult { call_id, content } => {
            assert_eq!(call_id, "c2");
            assert_eq!(content, "r2");
        }
        other => panic!("unexpected entry {:?}", other),
    }
}

#[test]
fn clock_reads_after_epoch() {
    assert!(zene::selftest::now_ts_ms() > 1_600_000_000_000);
    let s = RunSnapshot::new("r".to_string(), "s".to_string());
    assert!(s.started_at_ms > 1_600_000_000_000);
}
