use remote_desktop::clipboard::ClipboardManager;

#[test]
fn poll_change_detects_new_value() {
    let mut manager = ClipboardManager::new();
    assert_eq!(manager.poll_change(Some("hello".into())), Some("hello".into()));
    assert_eq!(manager.poll_change(Some("hello".into())), None);
    assert_eq!(manager.poll_change(Some("world".into())), Some("world".into()));
}

#[test]
fn poll_change_no_change_returns_none() {
    let mut manager = ClipboardManager::new();
    assert_eq!(manager.set_text("same", Ok(())), Ok(()));
    let result = manager.poll_change(Some("same".into()));
    assert_eq!(result, None);
}

#[test]
fn clipboard_without_text_is_no_change() {
    let mut manager = ClipboardManager::new();
    assert_eq!(manager.poll_change(Some("kept".into())), Some("kept".into()));
    assert_eq!(manager.poll_change(None), None);
    assert_eq!(manager.poll_change(Some("kept".into())), None);
}

#[test]
fn text_that_could_not_be_written_is_not_remembered() {
    let mut manager = ClipboardManager::new();
    assert_eq!(manager.set_text("lost", Err("busy".into())), Err("busy".into()));
    assert_eq!(manager.poll_change(Some("lost".into())), Some("lost".into()));
}

#[test]
fn empty_clipboard_is_no_change_at_first() {
    let mut manager = ClipboardManager::new();
    assert_eq!(manager.poll_change(Some(String::new())), None);
}
