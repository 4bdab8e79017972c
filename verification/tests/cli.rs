use codex_clean::cli::{
    ensure_prompt_not_blank, ensure_valid_prompt, exit_code_from_child, plan_resume,
    split_codex_args, CliError,
};
use codex_clean::runner::ResumeTarget;

#[test]
fn split_codex_args_rejects_flag_prompt() {
    let args = vec!["--sandbox".to_string()];
    let err = split_codex_args(&args).unwrap_err();
    assert!(err.message().contains("looks like a flag"));
}

#[test]
fn split_codex_args_allows_stdin_marker() {
    let args = vec!["--foo".to_string(), "-".to_string()];
    let (codex_args, prompt) = split_codex_args(&args).unwrap();
    assert_eq!(codex_args, vec!["--foo".to_string()]);
    assert_eq!(prompt, "-");
}

#[test]
fn split_codex_args_requires_some_argument() {
    let err = split_codex_args(&Vec::new()).unwrap_err();
    assert!(err.message().contains("No prompt provided"));
}

#[test]
fn ensure_valid_prompt_accepts_plain_text() {
    assert!(ensure_valid_prompt("hello there").is_ok());
    assert!(ensure_valid_prompt("-").is_ok());
    assert!(ensure_valid_prompt("").is_ok());
}

#[test]
fn ensure_valid_prompt_rejects_flag_like() {
    let err = ensure_valid_prompt("--model").unwrap_err();
    match err {
        CliError::FlagLikePrompt(p) => assert_eq!(p, "--model"),
        _ => panic!("Expected FlagLikePrompt"),
    }
}

#[test]
fn ensure_prompt_not_blank_rejects_whitespace() {
    let err = ensure_prompt_not_blank("  \t\n ").unwrap_err();
    assert!(err.message().contains("Empty prompt"));
    assert!(ensure_prompt_not_blank("").is_err());
    assert!(ensure_prompt_not_blank("  x ").is_ok());
}

#[test]
fn plan_resume_last_takes_positional_as_prompt() {
    let (target, prompt) = plan_resume(true, Some("hello".to_string()), None).unwrap();
    assert!(matches!(target, ResumeTarget::Last));
    assert_eq!(prompt, "hello");
}

#[test]
fn plan_resume_by_id() {
    let (target, prompt) = plan_resume(
        false,
        Some("session-123".to_string()),
        Some("-leading".to_string()),
    )
    .unwrap();
    match target {
        ResumeTarget::SessionId(id) => assert_eq!(id, "session-123"),
        _ => panic!("Expected resume by session id"),
    }
    assert_eq!(prompt, "-leading");
}

#[test]
fn plan_resume_requires_id_or_last() {
    let err = plan_resume(false, None, None).unwrap_err();
    assert!(err.message().contains("--last or SESSION_ID"));
}

#[test]
fn exit_code_from_child_rejects_out_of_range() {
    assert_eq!(exit_code_from_child(-1), 1);
    assert_eq!(exit_code_from_child(256), 1);
    assert_eq!(exit_code_from_child(42), 42);
}
