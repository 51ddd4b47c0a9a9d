use agent_supervisor::engine::Engine;
use agent_supervisor::relay::{absorb, blank, stderr_event, white_space, StdoutRelay, StreamEvent};

#[test]
fn white_space_agrees_with_std() {
    for n in 0u32..0x3100 {
        if let Some(c) = char::from_u32(n) {
            assert_eq!(white_space(c), c.is_whitespace(), "code point {:#x}", n);
        }
    }
    assert!(!white_space('\u{FEFF}'));
}

#[test]
fn blank_lines() {
    assert!(blank(""));
    assert!(blank("  \t \r"));
    assert!(blank("\u{3000}"));
    assert!(!blank(" x "));
}

#[test]
fn message_carries_line_verbatim() {
    let mut r = StdoutRelay::new("q1".to_string(), Engine::Secondary);
    let ev = r.accept("not json at all".to_string());
    assert_eq!(
        ev,
        Some(StreamEvent::Message {
            query_id: "q1".to_string(),
            data: "not json at all".to_string(),
            engine: Engine::Secondary,
        })
    );
    assert_eq!(r.finish(), None);
}

#[test]
fn blank_stdout_line_dropped() {
    let mut r = StdoutRelay::new("q1".to_string(), Engine::Primary);
    assert_eq!(r.accept("   ".to_string()), None);
}

#[test]
fn session_extracted_from_json_line() {
    let mut r = StdoutRelay::new("q".to_string(), Engine::Primary);
    r.accept(r#"{"type":"system","session_id":"abc"}"#.to_string());
    assert_eq!(r.session, Some("abc".to_string()));
}

#[test]
fn last_non_empty_session_wins() {
    let mut r = StdoutRelay::new("q".to_string(), Engine::Primary);
    for line in [
        r#"{"session_id":"first"}"#,
        r#"{"session_id":"second","x":1}"#,
        r#"{"session_id":""}"#,
        r#"{"other":"value"}"#,
        r#"{"session_id":7}"#,
        r#"["session_id","third"]"#,
        "garbage {\"session_id\":\"fourth\"}",
    ] {
        assert!(r.accept(line.to_string()).is_some());
    }
    assert_eq!(r.finish(), Some("second".to_string()));
}

#[test]
fn absorb_keeps_current_on_empty() {
    assert_eq!(absorb(Some("a".to_string()), Some(String::new())), Some("a".to_string()));
    assert_eq!(absorb(Some("a".to_string()), None), Some("a".to_string()));
    assert_eq!(absorb(None, Some("b".to_string())), Some("b".to_string()));
}

#[test]
fn stderr_lines() {
    let id = "q2".to_string();
    assert_eq!(stderr_event(&id, "\t".to_string()), None);
    assert_eq!(
        stderr_event(&id, "warning: x".to_string()),
        Some(StreamEvent::Error { query_id: "q2".to_string(), data: "warning: x".to_string() })
    );
}
