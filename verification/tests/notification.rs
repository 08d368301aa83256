use openwhisper::notification::safe_truncate_chars;
use openwhisper::notification::NotificationManager;

#[test]
fn test_notification_manager_toggle() {
    let mut mgr = NotificationManager::new(true);
    assert!(mgr.is_enabled());
    mgr.set_enabled(false);
    assert!(!mgr.is_enabled());
}

#[test]
fn test_safe_truncate_chars_short() {
    assert_eq!(safe_truncate_chars("Short text", 20), "Short text");
}

#[test]
fn test_safe_truncate_chars_long() {
    let long_str = "This is a longer string that exceeds the max characters";
    assert_eq!(safe_truncate_chars(long_str, 10), "This is a...");
}

#[test]
fn test_safe_truncate_multibyte_utf8() {
    let s = "🦀 Rust is awesome 🚀";
    assert_eq!(safe_truncate_chars(s, 3), "🦀 R...");
}

#[test]
fn disabled_manager_shows_nothing() {
    let mgr = NotificationManager::new(false);
    assert!(mgr.recording_started().is_none());
    assert!(mgr.transcribing().is_none());
    assert!(mgr.transcribed("hello").is_none());
    assert!(mgr.error("boom").is_none());
}

#[test]
fn notices_carry_their_texts_and_timeouts() {
    let mgr = NotificationManager::new(true);
    let n = mgr.recording_started().unwrap();
    assert_eq!(n.app_name, "OpenWhisper");
    assert_eq!(n.summary, "🎙️ Listening...");
    assert_eq!(n.timeout_ms, 2000);
    let n = mgr.transcribing().unwrap();
    assert_eq!(n.body, "Processing speech with Whisper...");
    let n = mgr.error("Mic error: busy").unwrap();
    assert_eq!((n.summary.as_str(), n.body.as_str(), n.timeout_ms), ("❌ OpenWhisper Error", "Mic error: busy", 5000));
    let long = "x".repeat(150);
    let n = mgr.transcribed(&long).unwrap();
    assert_eq!(n.body, format!("{}...", "x".repeat(100)));
    assert_eq!(n.timeout_ms, 3500);
}
