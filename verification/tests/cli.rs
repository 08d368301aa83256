use openwhisper::cli::default_command;
use openwhisper::cli::history_action;
use openwhisper::cli::history_audio_column;
use openwhisper::cli::history_cleared_message;
use openwhisper::cli::history_listing_text;
use openwhisper::cli::ipc_command_for;
use openwhisper::cli::Commands;
use openwhisper::cli::HistoryAction;
use openwhisper::daemon::earcon_for_action;
use openwhisper::daemon::plan_reload;
use openwhisper::daemon::recording_display;
use openwhisper::daemon::RecordingDisplay;
use openwhisper::audio::feedback::EarconType;
use openwhisper::hotkey::ipc::IpcCommand;
use openwhisper::hotkey::state::Action;

#[test]
fn daemon_control_subcommands() {
    assert_eq!(ipc_command_for(&Commands::Toggle), Some(IpcCommand::Toggle));
    assert_eq!(ipc_command_for(&Commands::Reload), Some(IpcCommand::ReloadConfig));
    assert_eq!(ipc_command_for(&Commands::PttUp), Some(IpcCommand::PttUp));
    assert_eq!(ipc_command_for(&Commands::Setup), None);
    assert!(matches!(default_command(), Commands::Daemon { config: None, with_ui: false }));
}

#[test]
fn history_option_precedence() {
    assert_eq!(history_action(true, Some(1), None, None, true), HistoryAction::OpenWindow);
    assert_eq!(history_action(false, Some(42), Some(2), None, false), HistoryAction::Play(42));
    assert_eq!(history_action(false, None, Some(2), Some(3), true), HistoryAction::Copy(2));
    assert_eq!(history_action(false, None, None, Some(3), true), HistoryAction::Delete(3));
    assert_eq!(history_action(false, None, None, None, true), HistoryAction::ClearAll);
    assert_eq!(history_action(false, None, None, None, false), HistoryAction::List);
}

#[test]
fn history_listing_columns() {
    let long = "b".repeat(47);
    assert_eq!(history_listing_text(&long), format!("{}...", "b".repeat(43)));
    assert_eq!(history_listing_text(&"c".repeat(46)), "c".repeat(46));
    assert_eq!(history_audio_column(true), " 🔊 Yes");
    assert_eq!(history_audio_column(false), "   -   ");
    assert!(history_cleared_message(Some("/rec")).contains("in '/rec' were not deleted"));
    assert!(history_cleared_message(None).ends_with("on disk were not deleted.)"));
}

#[test]
fn daemon_action_feedback() {
    assert_eq!(earcon_for_action(Action::StartRecording), Some(EarconType::RecordingStarted));
    assert_eq!(earcon_for_action(Action::NoAction), None);
    assert_eq!(recording_display(false, "Mic"), RecordingDisplay::Recording("Mic".to_string()));
    assert_eq!(
        recording_display(true, "Builtin"),
        RecordingDisplay::Degraded { reason: "Fallback microphone in use".to_string(), device: "Builtin (Fallback)".to_string() }
    );
}

#[test]
fn reload_restarts_only_what_changed() {
    let p = plan_reload(true, "KEY_RIGHTALT", None, true, "KEY_RIGHTALT", None);
    assert!(!p.stop_hotkey_listener && !p.start_hotkey_listener && !p.reload_recorder);
    let p = plan_reload(true, "KEY_RIGHTALT", None, true, "KEY_F12", Some("USB"));
    assert!(p.stop_hotkey_listener && p.start_hotkey_listener && p.reload_recorder);
    let p = plan_reload(true, "KEY_RIGHTALT", Some("USB"), false, "KEY_RIGHTALT", Some("USB"));
    assert!(p.stop_hotkey_listener && !p.start_hotkey_listener && !p.reload_recorder);
}

#[test]
fn test_entry_to_item_formatting() {
    use_history_meta();
}

fn use_history_meta() {
    let meta = openwhisper::history::history_item_meta("1.5", 21, "whisper-tiny", false);
    assert!(meta.contains("1.5s"));
    assert!(meta.contains("21 chars"));
    assert!(meta.contains("whisper-tiny"));
    assert!(!meta.contains("Audio"));
    assert_eq!(openwhisper::history::history_item_meta("0.2", 3, "", true), "0.2s • 3 chars • whisper • Audio");
    assert_eq!(openwhisper::history::search_pattern("team"), "%team%");
    assert_eq!(openwhisper::history::transcript_char_count("🦀 ok"), 4);
}
