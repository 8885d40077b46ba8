use treeclip::messages::Messages;

#[test]
fn test_startup_messages_not_empty() {
    assert!(!Messages::starting_adventure().is_empty());
    assert!(!Messages::scanning_files().is_empty());
}

#[test]
fn test_progress_messages_not_empty() {
    assert!(!Messages::traversing_tree().is_empty());
    assert!(!Messages::gathering_leaves().is_empty());
}

#[test]
fn test_action_messages_not_empty() {
    assert!(!Messages::copying_clipboard().is_empty());
    assert!(!Messages::clipboard_ready().is_empty());
    assert!(!Messages::clipboard_skipped().is_empty());
    assert!(!Messages::opening_editor().is_empty());
    assert!(!Messages::editor_opened().is_empty());
    assert!(!Messages::cleaning_up().is_empty());
    assert!(!Messages::cleaned_up().is_empty());
    assert!(!Messages::showing_stats().is_empty());
    assert!(!Messages::ready_to_launch().is_empty());
}

#[test]
fn test_ignore_file_messages() {
    let path = "/home/user/.treeclipignore";
    let message = Messages::found_ignore_file(path);
    assert!(message.contains(path));
    assert!(!message.is_empty());

    assert!(!Messages::applying_ignore_rules().is_empty());
}

#[test]
fn test_found_ignore_file_formatting() {
    let path = "test/path/.treeclipignore";
    let message = Messages::found_ignore_file(path);
    assert!(message.contains("Found ignore file:"));
    assert!(message.contains(path));
}
