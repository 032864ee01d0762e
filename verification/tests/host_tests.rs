use zene::host::{
    bridge_response, build_error_payload, busy_error, final_from_snapshot, line_action,
    map_error_to_contract, map_snapshot_error_to_contract, parse_u64, read_max_concurrency,
    read_stdin_timeout_ms, replay_key, submit_failure_outcome, template_fallback_text,
    timeout_outcome, request_handling, final_message, replayed_final, FinalMessage, FinalOutcome,
    HostErrorCode, HostRequest, HostRoute, LineAction,
};
use zene::host_registry::{Admission, HostRegistry, MAX_REPLAYS, REPLAY_TTL_MS};
use zene::engine_runs::RunTable;
use zene::error::ZeneError;
use zene::runtime::{CancellationToken, RunSnapshot, RunStatus};

/// A final message answering request "r0" of session "s0" with `text`.
fn msg(text: &str) -> FinalMessage {
    let outcome = FinalOutcome { status: "OK".to_string(), text: text.to_string(), error: None };
    final_message("r0", "s0", outcome, 7, 42)
}

fn request(kind: &str, id: &str) -> HostRequest {
    HostRequest {
        protocol_version: 1,
        request_type: kind.to_string(),
        request_id: id.to_string(),
        session_id: Some("s_test".to_string()),
        ts_ms: None,
        prompt: None,
        timeout_ms: None,
        idempotency_key: None,
        target_request_id: None,
        cancel_request_id: None,
        stream: None,
    }
}

#[test]
fn test_snapshot_error_code_mapping_takes_precedence() {
    let code = map_snapshot_error_to_contract(
        Some("INVALID_REQUEST"),
        "provider unavailable: upstream unavailable",
    );
    assert_eq!(code, HostErrorCode::InvalidRequest);
}

#[test]
fn test_build_final_from_snapshot_failed_uses_explicit_code() {
    let mut snapshot = RunSnapshot::new("r1".to_string(), "s1".to_string());
    snapshot.status = RunStatus::Failed;
    snapshot.error_message = Some("downstream unavailable".to_string());
    snapshot.error_code = Some("PROVIDER_DOWN".to_string());

    let outcome = final_from_snapshot(&snapshot);
    assert_eq!(outcome.status, "ERROR");
    assert_eq!(outcome.error.as_ref().unwrap().code, "PROVIDER_DOWN");
    assert_eq!(outcome.error.as_ref().unwrap().message, "downstream unavailable");
}

#[test]
fn test_build_final_from_snapshot_cancelled_status() {
    let mut snapshot = RunSnapshot::new("r2".to_string(), "s2".to_string());
    snapshot.status = RunStatus::Cancelled;

    let outcome = final_from_snapshot(&snapshot);
    assert_eq!(outcome.status, "CANCELED");
    assert!(outcome.error.is_none());
}

#[test]
fn final_from_completed_snapshot() {
    let mut snapshot = RunSnapshot::new("r3".to_string(), "s3".to_string());
    snapshot.mark_completed("all done".to_string());
    let outcome = final_from_snapshot(&snapshot);
    assert_eq!(outcome.status, "OK");
    assert_eq!(outcome.text, "all done");
    assert!(outcome.error.is_none());
}

#[test]
fn final_from_failed_snapshot_without_code_classifies_message() {
    let mut snapshot = RunSnapshot::new("r4".to_string(), "s4".to_string());
    snapshot.mark_failed("HTTP 429 Too Many Requests".to_string(), None);
    let outcome = final_from_snapshot(&snapshot);
    assert_eq!(outcome.status, "ERROR");
    let e = outcome.error.unwrap();
    assert_eq!(e.code, "PROVIDER_RATE_LIMIT");
    assert!(e.retryable);
    assert_eq!(outcome.text, "Provider is rate limited. Please retry shortly.");
}

#[test]
fn final_from_unfinished_snapshot_is_internal_error() {
    let snapshot = RunSnapshot::new("r5".to_string(), "s5".to_string());
    let outcome = final_from_snapshot(&snapshot);
    assert_eq!(outcome.status, "ERROR");
    let e = outcome.error.unwrap();
    assert_eq!(e.code, "INTERNAL");
    assert_eq!(e.message, "run finished with unexpected status");
    assert!(e.retryable);
}

#[test]
fn error_message_classification() {
    assert_eq!(map_error_to_contract("401 Unauthorized"), HostErrorCode::ProviderAuth);
    assert_eq!(map_error_to_contract("Invalid API key provided"), HostErrorCode::ProviderAuth);
    assert_eq!(map_error_to_contract("RATE LIMIT exceeded"), HostErrorCode::ProviderRateLimit);
    assert_eq!(map_error_to_contract("Service Unavailable"), HostErrorCode::ProviderDown);
    assert_eq!(map_error_to_contract("DNS lookup failed"), HostErrorCode::ProviderDown);
    assert_eq!(map_error_to_contract("something odd"), HostErrorCode::Internal);
}

#[test]
fn snapshot_codes_map_directly() {
    assert_eq!(map_snapshot_error_to_contract(Some("PROVIDER_DOWN"), "x"), HostErrorCode::ProviderDown);
    assert_eq!(map_snapshot_error_to_contract(Some("CANCELED"), "x"), HostErrorCode::Internal);
    assert_eq!(
        map_snapshot_error_to_contract(Some("PROVIDER_ERROR"), "unauthorized"),
        HostErrorCode::ProviderAuth
    );
    assert_eq!(map_snapshot_error_to_contract(None, "network down"), HostErrorCode::ProviderDown);
}

#[test]
fn code_names_and_retryability() {
    assert_eq!(HostErrorCode::Timeout.as_str(), "TIMEOUT");
    assert_eq!(HostErrorCode::ProviderAuth.as_str(), "PROVIDER_AUTH");
    assert_eq!(HostErrorCode::ProviderRateLimit.as_str(), "PROVIDER_RATE_LIMIT");
    assert_eq!(HostErrorCode::ProviderDown.as_str(), "PROVIDER_DOWN");
    assert_eq!(HostErrorCode::InvalidRequest.as_str(), "INVALID_REQUEST");
    assert_eq!(HostErrorCode::Internal.as_str(), "INTERNAL");
    assert!(!HostErrorCode::ProviderAuth.default_retryable());
    assert!(!HostErrorCode::InvalidRequest.default_retryable());
    assert!(HostErrorCode::Timeout.default_retryable());
    assert!(HostErrorCode::Internal.default_retryable());
    assert_eq!(template_fallback_text(HostErrorCode::Internal), None);
    assert_eq!(
        template_fallback_text(HostErrorCode::ProviderDown),
        Some("Provider is temporarily unavailable. Please retry shortly.")
    );
}

#[test]
fn error_payload_retryable_override() {
    let p = build_error_payload(HostErrorCode::ProviderAuth, "m", Some(true));
    assert!(p.retryable);
    assert_eq!(p.code, "PROVIDER_AUTH");
    let q = build_error_payload(HostErrorCode::ProviderAuth, "m", None);
    assert!(!q.retryable);
    assert!(q.http_status.is_none());
}

#[test]
fn test_host_ping_ack() {
    let req = request("ping", "p_test");
    assert_eq!(req.route(), HostRoute::Ping);
}

#[test]
fn unsupported_version_and_type() {
    let mut req = request("ping", "p");
    req.protocol_version = 2;
    assert_eq!(req.route(), HostRoute::UnsupportedVersion);
    assert_eq!(request("frobnicate", "x").route(), HostRoute::Unsupported);
    assert_eq!(request("run", "x").route(), HostRoute::Run);
    assert_eq!(request("session_close", "x").route(), HostRoute::SessionClose);
}

#[test]
fn test_host_cancel_requires_target() {
    let req = request("cancel", "c_test");
    assert_eq!(req.route(), HostRoute::Cancel);
    assert!(req.cancel_target().is_none());
    let mut with_target = request("cancel", "c");
    with_target.cancel_request_id = Some("r_x".to_string());
    assert_eq!(with_target.cancel_target().as_deref(), Some("r_x"));
    with_target.target_request_id = Some("   ".to_string());
    assert!(with_target.cancel_target().is_none());
}

#[test]
fn run_request_checks() {
    let mut req = request("run", "r");
    let e = req.check_run().unwrap_err();
    assert_eq!(e.message, "run request requires non-empty prompt");
    req.prompt = Some("hello".to_string());
    let e = req.check_run().unwrap_err();
    assert_eq!(e.message, "run request requires non-empty idempotency_key");
    req.idempotency_key = Some("k".to_string());
    let f = req.check_run().unwrap();
    assert_eq!(f.prompt, "hello");
    req.session_id = Some(" ".to_string());
    let e = req.check_run().unwrap_err();
    assert_eq!(e.message, "run request requires non-empty session_id");
    assert!(e.session_id.is_none());
}

#[test]
fn test_host_inflight_idempotency_dedup() {
    let mut reg = HostRegistry::new();
    let key = replay_key("s_test", "k_test");
    assert_eq!(key, "s_test:k_test");
    assert!(matches!(reg.admission("r_a", &key, 0), Admission::Proceed));
    reg.register("r_a".to_string(), "tok".to_string(), "run-1".to_string(), &key);
    match reg.admission("r_b", &key, 10) {
        Admission::DuplicateInProgress { existing_request_id } => {
            assert_eq!(existing_request_id, "r_a")
        }
        other => panic!("unexpected admission {:?}", other),
    }
    assert!(matches!(reg.admission("r_a", "other", 10), Admission::AlreadyInProgress));
}

#[test]
fn test_host_cancel_emits_single_terminal_final() {
    let mut reg = HostRegistry::new();
    let key = replay_key("s_cancel", "k_cancel");
    reg.register("r_cancel".to_string(), "tok".to_string(), "run-c".to_string(), &key);
    assert_eq!(reg.engine_run_of("r_cancel").as_deref(), Some("run-c"));
    // The cancel path emits the final; the run's own completion afterwards does not.
    assert!(reg.finish("r_cancel", "tok", &key, false, msg("canceled"), 5));
    assert!(!reg.finish("r_cancel", "tok", &key, false, msg("ok"), 6));
    assert!(reg.engine_run_of("r_cancel").is_none());
    // An accepted cancel is what the run's final reports, whatever the run
    // records after it.
    let mut runs = RunTable::new();
    runs.register_run("run-c".to_string(), "s_cancel".to_string(), CancellationToken::default());
    runs.update_run_status("run-c", RunStatus::Running);
    assert!(runs.cancel_run("run-c"));
    runs.mark_run_completed("run-c", "late output".to_string());
    runs.mark_run_failed("run-c", "late failure".to_string(), Some("INTERNAL".to_string()));
    runs.update_run_status("run-c", RunStatus::Running);
    runs.mark_run_error("run-c", &ZeneError::ReqwestError("down".to_string()));
    let snap = runs.get_run_snapshot("run-c").unwrap();
    assert_eq!(snap.status, RunStatus::Cancelled);
    assert_eq!(snap.output, None);
    let fin = final_from_snapshot(&snap);
    assert_eq!(fin.status, "CANCELED");
    assert!(fin.error.is_none());
}

#[test]
fn test_host_timeout_emits_single_terminal_final() {
    let outcome = timeout_outcome();
    assert_eq!(outcome.status, "TIMEOUT");
    assert_eq!(outcome.error.as_ref().unwrap().code, "TIMEOUT");
    let mut reg = HostRegistry::new();
    let key = replay_key("s_timeout", "k_timeout");
    reg.register("r_timeout".to_string(), "t".to_string(), "run-t".to_string(), &key);
    assert!(reg.finish("r_timeout", "t", &key, false, msg("timeout"), 1));
    assert!(!reg.finish("r_timeout", "t", &key, false, msg("late"), 2));
}

#[test]
fn test_host_returns_busy_when_global_limit_reached() {
    let e = busy_error();
    assert_eq!(e.code, "BUSY");
    assert_eq!(e.http_status, Some(429));
    assert!(e.retryable);
    assert_eq!(read_max_concurrency(Some("1")), 1);
}

#[test]
fn replay_after_finish_until_stale() {
    let mut reg = HostRegistry::new();
    let key = replay_key("s", "k");
    reg.register("r1".to_string(), "t".to_string(), "e".to_string(), &key);
    assert!(reg.finish("r1", "t", &key, false, msg("FINAL"), 1000));
    match reg.admission("r2", &key, 1000 + REPLAY_TTL_MS) {
        Admission::Replay { final_payload } => {
            assert_eq!(final_payload.outcome.text, "FINAL");
            let replay = replayed_final(&final_payload, "r2", "s", 99);
            assert_eq!(replay.request_id, "r2");
            assert_eq!(replay.session_id, "s");
            assert_eq!(replay.ts_ms, 99);
            assert!(replay.replayed);
            assert_eq!(replay.outcome.text, "FINAL");
            assert_eq!(replay.outcome.status, "OK");
            assert_eq!(replay.latency_ms, 42);
        }
        other => panic!("unexpected admission {:?}", other),
    }
    assert!(matches!(reg.admission("r2", &key, 1001 + REPLAY_TTL_MS), Admission::Proceed));
    reg.prune(1001 + REPLAY_TTL_MS, REPLAY_TTL_MS, MAX_REPLAYS);
    assert_eq!(reg.replays.len(), 0);
}

#[test]
fn prune_evicts_oldest_over_capacity() {
    let mut reg = HostRegistry::new();
    for (i, k) in ["a", "b", "c"].iter().enumerate() {
        reg.register(k.to_string(), "t".to_string(), "e".to_string(), k);
        assert!(reg.finish(k, "t", k, false, msg(k), 100 + i as u64));
    }
    reg.prune(102, REPLAY_TTL_MS, 2);
    assert_eq!(reg.replays.len(), 2);
    assert!(reg.replays.get("a").is_none());
    assert!(reg.replays.get("c").is_some());
}

#[test]
fn orphan_finish_still_emits() {
    let mut reg = HostRegistry::new();
    assert!(reg.finish("nobody", "t", "k", true, msg("x"), 0));
    assert!(!reg.finish("nobody", "t", "k2", false, msg("x"), 0));
}

#[test]
fn submit_failure_classifies() {
    let o = submit_failure_outcome("Configuration error: Unsupported provider: foo");
    assert_eq!(o.status, "ERROR");
    assert_eq!(o.error.unwrap().code, "INTERNAL");
}

#[test]
fn bridge_shapes() {
    let ok = bridge_response("OK", "hi", None, None);
    assert!(ok.ok);
    assert_eq!(ok.text, "hi");
    let err = bridge_response("TIMEOUT", "t", Some("TIMEOUT"), None);
    assert!(!err.ok);
    assert_eq!(err.text, "");
    assert_eq!(err.error_code.as_deref(), Some("TIMEOUT"));
    assert_eq!(err.error_message.as_deref(), Some("request failed"));
    let none = bridge_response("ERROR", "", None, Some("bad"));
    assert_eq!(none.error_code.as_deref(), Some("INTERNAL"));
}

#[test]
fn input_lines() {
    assert_eq!(line_action("  ", false), LineAction::Skip);
    assert_eq!(line_action("  ", true), LineAction::Reject);
    assert_eq!(line_action("{}", true), LineAction::Handle);
}

#[test]
fn numeric_settings() {
    assert_eq!(parse_u64("42"), Some(42));
    assert_eq!(parse_u64("+7"), Some(7));
    assert_eq!(parse_u64("18446744073709551615"), Some(u64::MAX));
    assert_eq!(parse_u64("18446744073709551616"), None);
    assert_eq!(parse_u64("-1"), None);
    assert_eq!(parse_u64(""), None);
    assert_eq!(parse_u64(" 1"), None);
    assert_eq!(read_max_concurrency(None), 8);
    assert_eq!(read_max_concurrency(Some("0")), 8);
    assert_eq!(read_max_concurrency(Some("x")), 8);
    assert_eq!(read_max_concurrency(Some("3")), 3);
    assert_eq!(read_stdin_timeout_ms(Some(5), Some("9")), 5);
    assert_eq!(read_stdin_timeout_ms(None, Some("9")), 9);
    assert_eq!(read_stdin_timeout_ms(None, None), 15000);
    assert_eq!(read_stdin_timeout_ms(None, Some("bad")), 15000);
}

#[test]
fn request_handling_by_route_and_mode() {
    let h = request_handling(HostRoute::UnsupportedVersion, false);
    assert!(h.fail);
    assert!(h.emit_ack);
    assert!(!h.stop_after);
    assert!(request_handling(HostRoute::UnsupportedVersion, true).fail);
    assert!(!request_handling(HostRoute::Unsupported, false).fail);
    assert!(request_handling(HostRoute::Unsupported, true).fail);
    let run = request_handling(HostRoute::Run, true);
    assert!(!run.fail);
    assert!(!run.emit_ack);
    assert!(run.allow_orphan_terminal);
    assert!(run.stop_after);
    let run = request_handling(HostRoute::Run, false);
    assert!(run.emit_ack);
    assert!(!run.allow_orphan_terminal);
    assert!(!request_handling(HostRoute::Ping, true).fail);
}
