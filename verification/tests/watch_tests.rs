use tts_core::errors::TtsError;
use tts_core::watch::{change_event_name, should_ignore};

#[test]
fn dot_directories_are_ignored() {
    assert!(should_ignore("/vault/.git/config"));
    assert!(should_ignore("/vault/.liminal/index"));
    assert!(should_ignore(".hidden"));
    assert!(!should_ignore("/vault/notes/today.md"));
    // `.` and `..` components are not themselves hidden names
    assert!(!should_ignore("./notes/today.md"));
    assert!(!should_ignore("../notes/today.md"));
    assert!(!should_ignore(""));
}

#[test]
fn change_events_follow_existence() {
    assert_eq!(change_event_name(true), "vault:file-changed");
    assert_eq!(change_event_name(false), "vault:file-deleted");
}

#[test]
fn passthrough_errors_keep_their_text() {
    let err = TtsError::Io { detail: "No such file or directory (os error 2)".to_string() };
    assert_eq!(err.message(), "No such file or directory (os error 2)");
}
