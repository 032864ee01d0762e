use zene::session::{Session, SessionManager};

#[test]
fn create_session_keeps_existing() {
    let mut m: SessionManager<String> = SessionManager::new();
    assert!(m.create_session("s1".to_string()));
    {
        let s = m.get_session("s1").unwrap();
        assert!(s.history.is_empty());
        assert!(s.plan.is_none());
        assert_eq!(s.created_at, s.last_updated_at);
    }
    let mut s = m.get_session("s1").unwrap().clone();
    s.history.push("hello".to_string());
    m.save_session(s);
    assert!(!m.create_session("s1".to_string()));
    assert_eq!(m.get_session("s1").unwrap().history, vec!["hello".to_string()]);
    assert!(m.get_session("s2").is_none());
}

#[test]
fn load_all_later_wins() {
    let mut m: SessionManager<u8> = SessionManager::new();
    let mut a = Session::new("x".to_string());
    a.history.push(1);
    let mut b = Session::new("x".to_string());
    b.history.push(2);
    let c = Session::new("y".to_string());
    m.load_all(vec![a, b, c]);
    assert_eq!(m.get_session("x").unwrap().history, vec![2]);
    assert!(m.get_session("y").is_some());
}
