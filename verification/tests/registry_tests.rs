use codecell::registry::SessionRegistry;

#[test]
fn tracks_at_most_one_process_per_session() {
    let mut reg = SessionRegistry::new();
    assert_eq!(reg.insert("editor-a".to_string(), 1), None);
    assert!(reg.has_process("editor-a"));
    assert_eq!(reg.entries.len(), 1);

    // A second request for the running session supersedes the first process:
    // the new handle takes the slot and the old one is handed back to be
    // terminated, so the session still tracks exactly one process.
    let displaced = reg.insert("editor-a".to_string(), 2);
    assert_eq!(displaced, Some(1));
    assert_eq!(reg.entries.len(), 1);
    assert!(reg.has_process("editor-a"));
    assert_eq!(reg.remove("editor-a"), Some(2));
    assert!(!reg.has_process("editor-a"));
}

#[test]
fn sessions_are_independent() {
    let mut reg = SessionRegistry::new();
    assert_eq!(reg.insert("editor-a".to_string(), 1), None);
    assert_eq!(reg.insert("editor-b".to_string(), 2), None);
    assert_eq!(reg.entries.len(), 2);
    assert_eq!(reg.remove("editor-a"), Some(1));
    assert!(reg.has_process("editor-b"));
    assert_eq!(reg.remove("editor-b"), Some(2));
    assert_eq!(reg.entries.len(), 0);
}

#[test]
fn stop_twice_reports_not_found_both_times() {
    let mut reg = SessionRegistry::new();
    assert_eq!(reg.remove("editor-a"), None);
    assert_eq!(reg.remove("editor-a"), None);

    // The same holds for a session whose process already ended.
    assert_eq!(reg.insert("editor-b".to_string(), 7), None);
    assert_eq!(reg.remove("editor-b"), Some(7));
    assert_eq!(reg.remove("editor-b"), None);
    assert_eq!(reg.remove("editor-b"), None);
}
