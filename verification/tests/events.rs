use codex_clean::events::{extract_event, Event};

#[test]
fn test_parse_thread_started() {
    let json = r#"{"type":"thread.started","thread_id":"0199a213-81c0-7800-8aa1-bbab2a035a53"}"#;
    let event = extract_event(json).unwrap();
    match event {
        Event::ThreadStarted { thread_id } => {
            assert_eq!(thread_id, "0199a213-81c0-7800-8aa1-bbab2a035a53");
        }
        _ => panic!("Expected ThreadStarted"),
    }
}

#[test]
fn test_parse_agent_message() {
    let json = r#"{"type":"item.completed","item":{"type":"agent_message","text":"Hello world"}}"#;
    let event = extract_event(json).unwrap();
    match event {
        Event::AgentMessage { text } => {
            assert_eq!(text, Some("Hello world".to_string()));
        }
        _ => panic!("Expected AgentMessage"),
    }
}

#[test]
fn test_parse_agent_message_no_text() {
    let json = r#"{"type":"item.completed","item":{"type":"agent_message"}}"#;
    let event = extract_event(json).unwrap();
    match event {
        Event::AgentMessage { text } => {
            assert!(text.is_none());
        }
        _ => panic!("Expected AgentMessage"),
    }
}

#[test]
fn test_ignore_unknown_event() {
    let json = r#"{"type":"unknown.event","data":"something"}"#;
    assert!(extract_event(json).is_none());
}

#[test]
fn test_ignore_non_agent_item() {
    let json = r#"{"type":"item.completed","item":{"type":"tool_call","name":"read"}}"#;
    assert!(extract_event(json).is_none());
}

#[test]
fn test_ignore_malformed_json() {
    let json = r#"not valid json at all"#;
    assert!(extract_event(json).is_none());
}

#[test]
fn test_ignore_missing_type() {
    let json = r#"{"data":"no type field"}"#;
    assert!(extract_event(json).is_none());
}

#[test]
fn test_thread_started_needs_string_id() {
    let json = r#"{"type":"thread.started","thread_id":42}"#;
    assert!(extract_event(json).is_none());
}

#[test]
fn test_thread_started_needs_id_at_all() {
    let json = r#"{"type":"thread.started"}"#;
    assert!(extract_event(json).is_none());
}

#[test]
fn test_agent_message_non_string_text_is_absent() {
    let json = r#"{"type":"item.completed","item":{"type":"agent_message","text":7}}"#;
    let event = extract_event(json).unwrap();
    match event {
        Event::AgentMessage { text } => assert!(text.is_none()),
        _ => panic!("Expected AgentMessage"),
    }
}

#[test]
fn test_item_must_be_object() {
    let json = r#"{"type":"item.completed","item":"agent_message"}"#;
    assert!(extract_event(json).is_none());
}
