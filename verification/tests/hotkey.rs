use openwhisper::audio::feedback::EarconType;
use openwhisper::daemon::audio_disposition;
use openwhisper::daemon::earcon_for_action;
use openwhisper::daemon::AudioDisposition;
use std::sync::atomic::AtomicBool;
use std::sync::Arc;
use std::time::{Duration, Instant};

use openwhisper::daemon::dispatch_command;
use openwhisper::hotkey::evdev_listener::key_event_command;
use openwhisper::hotkey::evdev_listener::key_transition;
use openwhisper::hotkey::evdev_listener::should_watch_device;
use openwhisper::hotkey::evdev_listener::EvdevListenerHandle;
use openwhisper::hotkey::evdev_listener::KeyTransition;
use openwhisper::hotkey::evdev_listener::KEY_ESC;
use openwhisper::hotkey::ipc::command_reply;
use openwhisper::hotkey::ipc::parse_ipc_alias;
use openwhisper::hotkey::ipc::IpcCommand;
use openwhisper::hotkey::state::Action;
use openwhisper::hotkey::state::HotkeyEngine;
use openwhisper::hotkey::state::ModeState;

fn wait_ms(ms: u64) {
    let start = Instant::now();
    while start.elapsed() < Duration::from_millis(ms) {
        std::hint::spin_loop();
    }
}

#[test]
fn test_ptt_hold_behavior() {
    let mut engine = HotkeyEngine::new(100);
    assert_eq!(engine.on_press(), Action::StartRecording);
    assert_eq!(engine.current_state(), ModeState::HoldingPress);

    wait_ms(150);

    assert_eq!(engine.on_release(), Action::StopAndTranscribe);
    assert_eq!(engine.current_state(), ModeState::Transcribing);
}

#[test]
fn test_toggle_tap_behavior() {
    let mut engine = HotkeyEngine::new(200);
    assert_eq!(engine.on_press(), Action::StartRecording);

    assert_eq!(engine.on_release(), Action::NoAction);
    assert_eq!(engine.current_state(), ModeState::ActiveToggle);

    wait_ms(50);
    assert!(engine.is_recording());

    assert_eq!(engine.on_press(), Action::StopAndTranscribe);
    assert_eq!(engine.current_state(), ModeState::Transcribing);
}

#[test]
fn test_cancel_recording() {
    let mut engine = HotkeyEngine::new(200);
    assert_eq!(engine.on_press(), Action::StartRecording);
    assert!(engine.is_recording());

    assert_eq!(engine.on_cancel(), Action::CancelRecording);
    assert_eq!(engine.current_state(), ModeState::Idle);
    assert!(!engine.is_recording());

    assert_eq!(engine.on_cancel(), Action::NoAction);
}

#[test]
fn test_explicit_toggle() {
    let mut engine = HotkeyEngine::new(200);
    assert_eq!(engine.on_toggle(), Action::StartRecording);
    assert_eq!(engine.current_state(), ModeState::ActiveToggle);
    assert!(engine.is_recording());

    assert_eq!(engine.on_toggle(), Action::StopAndTranscribe);
    assert_eq!(engine.current_state(), ModeState::Transcribing);
}

#[test]
fn test_key_repeat_suppression() {
    let mut engine = HotkeyEngine::new(300);
    assert_eq!(engine.on_press(), Action::StartRecording);

    assert_eq!(engine.on_press(), Action::NoAction);
    assert_eq!(engine.on_press(), Action::NoAction);
    assert_eq!(engine.current_state(), ModeState::HoldingPress);
}

#[test]
fn test_transcription_finished_resets_idle() {
    let mut engine = HotkeyEngine::new(100);
    engine.on_press();
    wait_ms(120);
    engine.on_release();
    assert_eq!(engine.current_state(), ModeState::Transcribing);

    engine.on_transcription_finished();
    assert_eq!(engine.current_state(), ModeState::Idle);
    assert!(!engine.is_recording());
}

#[test]
fn test_release_when_idle() {
    let mut engine = HotkeyEngine::new(100);
    assert_eq!(engine.on_release(), Action::NoAction);
    assert_eq!(engine.current_state(), ModeState::Idle);
}

#[test]
fn release_after_threshold_decides_between_hold_and_tap() {
    let mut held = HotkeyEngine::new(350);
    held.on_press();
    assert_eq!(held.release_after(350), Action::StopAndTranscribe);
    assert_eq!(held.current_state(), ModeState::Transcribing);

    let mut tapped = HotkeyEngine::new(350);
    tapped.on_press();
    assert_eq!(tapped.release_after(349), Action::NoAction);
    assert_eq!(tapped.current_state(), ModeState::ActiveToggle);
}

#[test]
fn transcribing_ignores_every_event() {
    let mut engine = HotkeyEngine::new(100);
    engine.on_toggle();
    engine.on_toggle();
    assert_eq!(engine.current_state(), ModeState::Transcribing);
    assert_eq!(engine.on_press(), Action::NoAction);
    assert_eq!(engine.on_release(), Action::NoAction);
    assert_eq!(engine.on_toggle(), Action::NoAction);
    assert_eq!(engine.on_cancel(), Action::NoAction);
    assert_eq!(engine.current_state(), ModeState::Transcribing);
}

#[test]
fn threshold_can_change_without_touching_the_mode() {
    let mut engine = HotkeyEngine::new(100);
    engine.on_toggle();
    engine.set_ptt_threshold_ms(500);
    assert_eq!(engine.current_state(), ModeState::ActiveToggle);
}

#[test]
fn test_handle_lifecycle() {
    let running = Arc::new(AtomicBool::new(true));
    let handle = EvdevListenerHandle::new(running.clone());
    assert!(handle.is_running());
    handle.stop();
    assert!(!handle.is_running());
}

#[test]
fn test_parse_ipc_command_aliases() {
    assert!(matches!(parse_ipc_alias("toggle"), Some(IpcCommand::Toggle)));
    assert!(matches!(parse_ipc_alias("ptt-down"), Some(IpcCommand::PttDown)));
    assert!(matches!(parse_ipc_alias("press"), Some(IpcCommand::PttDown)));
    assert!(matches!(parse_ipc_alias("ptt-up"), Some(IpcCommand::PttUp)));
    assert!(matches!(parse_ipc_alias("release"), Some(IpcCommand::PttUp)));
    assert!(matches!(parse_ipc_alias("cancel"), Some(IpcCommand::Cancel)));
    assert!(matches!(parse_ipc_alias("status"), Some(IpcCommand::Status)));
    assert!(matches!(parse_ipc_alias("reload-config"), Some(IpcCommand::ReloadConfig)));
    assert!(matches!(parse_ipc_alias("reload_config"), Some(IpcCommand::ReloadConfig)));
    assert!(matches!(parse_ipc_alias("preview-hud"), Some(IpcCommand::PreviewHud)));
    assert!(matches!(parse_ipc_alias("preview"), Some(IpcCommand::PreviewHud)));
    assert!(parse_ipc_alias("invalid_xyz").is_none());
}

#[test]
fn alias_parsing_ignores_surrounding_whitespace() {
    assert_eq!(parse_ipc_alias("  listen \n"), Some(IpcCommand::Subscribe));
    assert_eq!(parse_ipc_alias("Toggle"), None);
}

#[test]
fn command_replies() {
    let r = command_reply(Some(IpcCommand::Subscribe), "subscribe");
    assert_eq!((r.status.as_str(), r.message.as_str()), ("ok", "subscribed"));
    let r = command_reply(Some(IpcCommand::ReloadConfig), "reload");
    assert_eq!(r.message, "Configuration reloaded successfully");
    let r = command_reply(Some(IpcCommand::Toggle), "toggle");
    assert_eq!((r.status.as_str(), r.message.as_str()), ("ok", "command processed"));
    let r = command_reply(None, "bogus");
    assert_eq!((r.status.as_str(), r.message.as_str()), ("error", "unknown command: bogus"));
}

#[test]
fn dispatch_routes_commands_to_the_engine() {
    let mut engine = HotkeyEngine::new(100);
    assert_eq!(dispatch_command(&mut engine, IpcCommand::Status), Action::NoAction);
    assert_eq!(dispatch_command(&mut engine, IpcCommand::PttDown), Action::StartRecording);
    assert_eq!(dispatch_command(&mut engine, IpcCommand::Subscribe), Action::NoAction);
    assert_eq!(engine.current_state(), ModeState::HoldingPress);
    assert_eq!(dispatch_command(&mut engine, IpcCommand::Cancel), Action::CancelRecording);
    assert_eq!(engine.current_state(), ModeState::Idle);
}

#[test]
fn key_events_map_to_push_to_talk() {
    assert_eq!(key_transition(1), Some(KeyTransition::Press));
    assert_eq!(key_transition(0), Some(KeyTransition::Release));
    assert_eq!(key_transition(2), Some(KeyTransition::Repeat));
    assert_eq!(key_transition(7), None);
    assert_eq!(key_event_command(true, 100, 100, 1), Some(IpcCommand::PttDown));
    assert_eq!(key_event_command(true, 100, 100, 0), Some(IpcCommand::PttUp));
    assert_eq!(key_event_command(true, 100, 100, 2), None);
    assert_eq!(key_event_command(true, 101, 100, 1), None);
    assert_eq!(key_event_command(false, 100, 100, 1), None);
}

#[test]
fn own_virtual_keyboard_is_never_watched() {
    assert!(!should_watch_device(Some("OpenWhisper Virtual Keyboard"), true, false));
    assert!(should_watch_device(Some("AT Translated Set 2 keyboard"), true, false));
    assert!(!should_watch_device(None, false, false));
    assert!(!should_watch_device(None, true, true));
}

#[test]
fn escape_aborts_a_recording() {
    assert_eq!(KEY_ESC, evdev::Key::KEY_ESC.code());
    assert_eq!(key_event_command(true, KEY_ESC, 100, 1), Some(IpcCommand::Cancel));
    assert_eq!(key_event_command(true, KEY_ESC, 100, 0), None);
    assert_eq!(key_event_command(true, KEY_ESC, 100, 2), None);
    assert_eq!(key_event_command(true, KEY_ESC, KEY_ESC, 1), Some(IpcCommand::PttDown));
}

#[test]
fn cancel_while_recording_discards_the_audio() {
    let mut engine = HotkeyEngine::new(350);
    assert_eq!(dispatch_command(&mut engine, IpcCommand::Toggle), Action::StartRecording);
    assert_eq!(audio_disposition(Action::StartRecording), AudioDisposition::StartCapture);
    let action = dispatch_command(&mut engine, IpcCommand::Cancel);
    assert_eq!(action, Action::CancelRecording);
    assert_eq!(engine.current_state(), ModeState::Idle);
    assert_eq!(earcon_for_action(action), Some(EarconType::Cancel));
    assert_eq!(audio_disposition(action), AudioDisposition::Discard);
    assert_eq!(audio_disposition(Action::StopAndTranscribe), AudioDisposition::EncodeAndTranscribe);
    assert_eq!(audio_disposition(Action::NoAction), AudioDisposition::Untouched);
}
