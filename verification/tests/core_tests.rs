use zene::compactor::{join_strings, render_entry, summary_note, summary_prompt, SessionCompactor};
use zene::contracts::{AgentEvent, EventEnvelope, FileChange, TokenUsage};
use zene::error::{ensure_not_cancelled, ZeneError};
use zene::strmap::StrMap;
use zene::text::{str_contains, take_chars, trimmed, usize_to_string};

#[test]
fn error_messages_and_codes() {
    let e = ZeneError::ConfigError("bad".to_string());
    assert_eq!(e.message(), "Configuration error: bad");
    assert_eq!(e.classify_error_code(), "INVALID_REQUEST");
    assert_eq!(ZeneError::ProviderError("x".to_string()).classify_error_code(), "PROVIDER_ERROR");
    assert_eq!(ZeneError::ModelError("x".to_string()).classify_error_code(), "PROVIDER_ERROR");
    assert_eq!(ZeneError::ReqwestError("x".to_string()).classify_error_code(), "PROVIDER_DOWN");
    assert_eq!(ZeneError::Cancelled("x".to_string()).classify_error_code(), "CANCELED");
    assert_eq!(ZeneError::IoError("x".to_string()).classify_error_code(), "INTERNAL");
    assert_eq!(ZeneError::Cancelled("c".to_string()).message(), "Run cancelled: c");
    assert!(ZeneError::Cancelled("c".to_string()).is_cancelled());
    assert!(!e.is_cancelled());
}

#[test]
fn cancellation_check() {
    assert!(ensure_not_cancelled(false).is_ok());
    match ensure_not_cancelled(true) {
        Err(ZeneError::Cancelled(m)) => assert_eq!(m, "run cancelled by host"),
        other => panic!("unexpected {:?}", other),
    }
}

#[test]
fn usage_and_changes() {
    let mut u = TokenUsage::default();
    u.add(&TokenUsage { prompt_tokens: 1, completion_tokens: 2, total_tokens: 3 });
    u.add(&TokenUsage { prompt_tokens: 10, completion_tokens: 20, total_tokens: 30 });
    assert_eq!((u.prompt_tokens, u.completion_tokens, u.total_tokens), (11, 22, 33));
    assert_eq!(FileChange::for_write("a", true).change_type, "modified");
    assert_eq!(FileChange::for_write("a", false).change_type, "created");
}

#[test]
fn envelopes_count_from_one() {
    let ev = AgentEvent::Finished("done".to_string());
    assert_eq!(ev.event_type(), "Finished");
    let e1 = EventEnvelope::stamp("r", "s", 0, 5, &ev, "{}".to_string());
    assert_eq!(e1.seq, 1);
    assert_eq!(e1.event_type, "Finished");
    let e2 = EventEnvelope::stamp("r", "s", e1.seq, 6, &AgentEvent::PlanningStarted, "{}".to_string());
    assert_eq!(e2.seq, 2);
    assert_eq!(e2.event_type, "PlanningStarted");
    assert_eq!(
        AgentEvent::ToolCall { name: "n".to_string(), arguments: "{}".to_string() }.event_type(),
        "ToolCall"
    );
}

#[test]
fn compaction_range_and_splice() {
    let c = SessionCompactor::new();
    assert_eq!((c.threshold, c.keep_recent), (20, 10));
    assert_eq!(c.compaction_range(20), None);
    assert_eq!(c.compaction_range(21), Some((1, 11)));
    let small = SessionCompactor { threshold: 2, keep_recent: 10 };
    assert_eq!(small.compaction_range(5), None);
    let mut h: Vec<u32> = (0..25).collect();
    SessionCompactor::splice(&mut h, 15, 99);
    assert_eq!(h.len(), 12);
    assert_eq!(h[0], 0);
    assert_eq!(h[1], 99);
    assert_eq!(&h[2..], &(15..25).collect::<Vec<u32>>()[..]);
}

#[test]
fn summary_texts() {
    assert_eq!(
        render_entry("user", &vec![Some("hi".to_string()), None, Some("there".to_string())]),
        "user: hi [Non-text content] there"
    );
    assert_eq!(join_strings(&vec!["a".to_string(), "b".to_string()], ", "), "a, b");
    assert!(summary_prompt(&vec!["x".to_string(), "y".to_string()]).ends_with("History:\n\nx\n\ny"));
    assert_eq!(summary_note("s"), "Older conversation summary: s");
}

#[test]
fn text_helpers() {
    assert_eq!(trimmed("  a b \n"), "a b");
    assert_eq!(usize_to_string(0), "0");
    assert_eq!(usize_to_string(1200), "1200");
    assert_eq!(take_chars("héllo", 2), "hé");
    assert!(str_contains("hello", "ell"));
    assert!(!str_contains("hello", "elo"));
}

#[test]
fn string_map() {
    let mut m: StrMap<u32> = StrMap::new();
    m.insert("a", 1);
    m.insert("b", 2);
    m.insert("a", 3);
    assert_eq!(m.len(), 2);
    assert_eq!(m.get("a"), Some(&3));
    assert!(m.contains_key("b"));
    assert_eq!(m.remove("b"), Some(2));
    assert!(!m.contains_key("b"));
    assert_eq!(m.remove("b"), None);
}

#[test]
fn string_map_extend_prefers_new_values() {
    let mut a: StrMap<String> = StrMap::new();
    a.insert("x", "1".to_string());
    a.insert("y", "2".to_string());
    let mut b: StrMap<String> = StrMap::new();
    b.insert("y", "20".to_string());
    b.insert("z", "30".to_string());
    a.extend_from(&b);
    assert_eq!(a.len(), 3);
    assert_eq!(a.get("x").map(|s| s.as_str()), Some("1"));
    assert_eq!(a.get("y").map(|s| s.as_str()), Some("20"));
    assert_eq!(a.get("z").map(|s| s.as_str()), Some("30"));
}
