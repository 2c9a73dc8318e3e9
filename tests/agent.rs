use ssh_key_store::{get_loaded_ssh_agent_keys, is_blank_text, is_ssh_agent_running, AgentError, ToolOutcome};

#[test]
fn agent_indicator() {
    assert!(!is_ssh_agent_running(None));
    assert!(!is_ssh_agent_running(Some("")));
    assert!(!is_ssh_agent_running(Some("   ")));
    assert!(!is_ssh_agent_running(Some(" \t\r\n")));
    assert!(!is_ssh_agent_running(Some("\u{3000}\u{a0}")));
    assert!(is_ssh_agent_running(Some("/tmp/ssh-XXXX/agent.123")));
    assert!(is_ssh_agent_running(Some("  /run/agent.sock  ")));
    assert!(is_ssh_agent_running(Some("x")));
}

#[test]
fn blank_texts() {
    assert!(is_blank_text(""));
    assert!(is_blank_text(" \n\t"));
    assert!(!is_blank_text(" a "));
}

#[test]
fn agent_keys_one_per_line() {
    let out = ToolOutcome::Succeeded(
        "256 SHA256:aaa alice@example.com (ED25519)\r\n3072 SHA256:bbb bob (RSA)\n".to_string(),
    );
    let keys = get_loaded_ssh_agent_keys(&out).ok().unwrap();
    assert_eq!(
        keys,
        vec![
            "256 SHA256:aaa alice@example.com (ED25519)".to_string(),
            "3072 SHA256:bbb bob (RSA)".to_string()
        ]
    );
    let keys = get_loaded_ssh_agent_keys(&ToolOutcome::Succeeded("a\n\nb".to_string())).ok().unwrap();
    assert_eq!(keys, vec!["a".to_string(), "".to_string(), "b".to_string()]);
    let none = get_loaded_ssh_agent_keys(&ToolOutcome::Succeeded(String::new())).ok().unwrap();
    assert!(none.is_empty());
}

#[test]
fn agent_query_errors() {
    match get_loaded_ssh_agent_keys(&ToolOutcome::Failed("The agent has no identities.\n".to_string())) {
        Err(AgentError::QueryFailed(e)) => assert_eq!(e, "The agent has no identities.\n"),
        _ => panic!("expected a failed query"),
    }
    let err = get_loaded_ssh_agent_keys(&ToolOutcome::Unavailable("not found".to_string())).err().unwrap();
    assert!(matches!(err, AgentError::ToolUnavailable(_)));
    assert_eq!(err.message(), "Failed to run ssh-add -l: not found");
    assert_eq!(AgentError::QueryFailed("e".to_string()).message(), "e");
}
