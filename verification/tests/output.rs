use codex_clean::output::CodexOutput;

#[test]
fn test_first_thread_id_wins() {
    let mut output = CodexOutput::new();
    output.add_thread_id("first".to_string());
    output.add_thread_id("second".to_string());
    assert_eq!(output.session_id, Some("first".to_string()));
    assert!(output.multiple_threads_seen);
}

#[test]
fn test_same_thread_id_no_warning() {
    let mut output = CodexOutput::new();
    output.add_thread_id("same".to_string());
    output.add_thread_id("same".to_string());
    assert_eq!(output.session_id, Some("same".to_string()));
    assert!(!output.multiple_threads_seen);
}

#[test]
fn test_message_aggregation() {
    let mut output = CodexOutput::new();
    output.add_message("Hello".to_string());
    output.add_message("world".to_string());
    assert_eq!(output.aggregated_message(), "Hello\nworld");
}

#[test]
fn test_empty_messages_skipped() {
    let mut output = CodexOutput::new();
    output.add_message("".to_string());
    output.add_message("content".to_string());
    output.add_message("".to_string());
    assert_eq!(output.messages.len(), 1);
    assert_eq!(output.aggregated_message(), "content");
}

#[test]
fn render_warns_on_multiple_threads() {
    let mut output = CodexOutput::new();
    output.multiple_threads_seen = true;
    output.session_id = Some("abc".into());
    let rendered = output.render();
    assert!(rendered.stderr.contains("Multiple thread IDs"));
    assert!(rendered.stdout.contains("Session: abc"));
}

#[test]
fn render_handles_missing_session_and_empty_message() {
    let output = CodexOutput::new();
    let rendered = output.render();
    assert!(rendered.stderr.contains("No session ID"));
    assert!(!rendered.stderr.contains("No response"));
    assert!(rendered.stdout.is_empty());
}

#[test]
fn render_session_and_message_exact_text() {
    let mut output = CodexOutput::new();
    output.add_thread_id("s1".to_string());
    output.add_message("hi".to_string());
    let rendered = output.render();
    assert_eq!(rendered.stdout, "Session: s1\n\nhi\n");
    assert_eq!(rendered.stderr, "");
}

#[test]
fn render_session_without_response() {
    let mut output = CodexOutput::new();
    output.add_thread_id("s1".to_string());
    let rendered = output.render();
    assert_eq!(rendered.stdout, "Session: s1\n");
    assert!(rendered.stderr.contains("No response received"));
}

#[test]
fn render_is_idempotent() {
    let mut output = CodexOutput::new();
    output.add_thread_id("s1".to_string());
    output.add_thread_id("s2".to_string());
    output.add_message("one".to_string());
    output.add_message("two".to_string());
    let first = output.render();
    let second = output.render();
    assert_eq!(first, second);
}
