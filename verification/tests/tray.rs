use openwhisper::hotkey::ipc::DaemonState;
use openwhisper::tray::generate_fallback_icon;
use openwhisper::tray::recent_entry_label;
use openwhisper::tray::OpenWhisperTray;
use openwhisper::tray::RecentMenuEntry;
use openwhisper::tray::TrayMenuEntry;
use openwhisper::tray::TrayController;
use openwhisper::tray::TrayState;
use openwhisper::ui_service::on_connection;
use openwhisper::ui_service::on_daemon_state;
use openwhisper::ui_service::on_diagnostics;
use openwhisper::ui_service::on_transcription_completed;
use openwhisper::ui_service::HudUpdate;

fn controller() -> TrayController {
    TrayController::new("/tmp/test.sock".to_string(), "http://localhost:8000".to_string())
}

#[test]
fn test_tray_fallback_icon_dimensions() {
    let tray = OpenWhisperTray::new("/tmp/test.sock".to_string(), "http://localhost:8000".to_string());
    for s in [
        TrayState::Idle,
        TrayState::Recording,
        TrayState::Transcribing,
        TrayState::Degraded,
        TrayState::Error,
    ] {
        let icon = tray.generate_fallback_icon(s);
        assert_eq!(icon.width, 24);
        assert_eq!(icon.height, 24);
        assert_eq!(icon.data.len(), 24 * 24 * 4);
    }
}

fn pixel(data: &[u8], x: usize, y: usize) -> (u8, u8, u8, u8) {
    let i = 4 * (24 * y + x);
    (data[i], data[i + 1], data[i + 2], data[i + 3])
}

#[test]
fn fallback_icon_pixels() {
    let idle = generate_fallback_icon(TrayState::Idle);
    assert_eq!(pixel(&idle.data, 10, 5), (255, 248, 250, 252));
    assert_eq!(pixel(&idle.data, 8, 2), (0, 0, 0, 0));
    assert_eq!(pixel(&idle.data, 0, 0), (0, 0, 0, 0));
    assert_eq!(pixel(&idle.data, 19, 3), (0, 0, 0, 0));
    let rec = generate_fallback_icon(TrayState::Recording);
    assert_eq!(pixel(&rec.data, 2, 10), (255, 239, 68, 68));
    assert_eq!(pixel(&rec.data, 19, 3), (255, 239, 68, 68));
    let busy = generate_fallback_icon(TrayState::Transcribing);
    assert_eq!(pixel(&busy.data, 21, 15), (255, 56, 189, 248));
    let degraded = generate_fallback_icon(TrayState::Degraded);
    assert_eq!(pixel(&degraded.data, 18, 2), (255, 245, 158, 11));
    assert_eq!(pixel(&degraded.data, 11, 18), (255, 245, 158, 11));
}

#[test]
fn test_tray_controller_state_update() {
    let mut ctrl = controller();
    assert_eq!(ctrl.tray().state, TrayState::Idle);
    ctrl.set_state(TrayState::Recording);
    assert_eq!(ctrl.tray().state, TrayState::Recording);
    ctrl.set_state(TrayState::Transcribing);
    assert_eq!(ctrl.tray().state, TrayState::Transcribing);
    ctrl.set_state(TrayState::Degraded);
    assert_eq!(ctrl.tray().state, TrayState::Degraded);
    ctrl.set_state(TrayState::Error);
    assert_eq!(ctrl.tray().state, TrayState::Error);
}

#[test]
fn test_tray_controller_history_ring_buffer() {
    let mut ctrl = controller();
    assert!(ctrl.history().is_empty());

    ctrl.add_history("   ".to_string());
    assert!(ctrl.history().is_empty());

    ctrl.add_history("First transcription".to_string());
    assert_eq!(ctrl.history(), vec!["First transcription".to_string()]);

    ctrl.add_history("First transcription".to_string());
    assert_eq!(ctrl.history().len(), 1);

    ctrl.add_history("Second transcription".to_string());
    assert_eq!(
        ctrl.history(),
        vec!["Second transcription".to_string(), "First transcription".to_string()]
    );

    for i in 1..=11 {
        ctrl.add_history(format!("Batch dictation #{}", i));
    }

    let current = ctrl.history();
    assert_eq!(current.len(), 10);
    assert_eq!(current[0], "Batch dictation #11");
    assert_eq!(current[9], "Batch dictation #2");
}

#[test]
fn history_entries_are_trimmed() {
    let mut ctrl = controller();
    ctrl.add_history("  padded text \n".to_string());
    ctrl.add_history("padded text".to_string());
    assert_eq!(ctrl.history(), vec!["padded text".to_string()]);
}

#[test]
fn test_tray_tooltip_contents() {
    let mut ctrl = TrayController::new("/tmp/test.sock".to_string(), "https://ovms.example.com/v1".to_string());
    ctrl.set_diagnostics(Some("0.42".to_string()), None);
    ctrl.set_active_device(Some("USB Condenser Mic".to_string()));
    let tooltip = ctrl.tray().tool_tip();
    assert_eq!(tooltip.title, "OpenWhisper Dictation Assistant");
    assert!(tooltip.description.contains("Ready (Idle)"));
    assert!(tooltip.description.contains("https://ovms.example.com/v1"));
    assert!(tooltip.description.contains("0.42s"));
    assert!(tooltip.description.contains("USB Condenser Mic"));
    assert_eq!(
        tooltip.description,
        "Status: Ready (Idle)\nServer: https://ovms.example.com/v1\nMicrophone: USB Condenser Mic\nLast Latency: 0.42s"
    );
    assert_eq!(tooltip.icon_name, "openwhisper-tray-idle");
}

#[test]
fn diagnostics_keep_an_earlier_latency() {
    let mut ctrl = controller();
    ctrl.set_diagnostics(Some("1.00".to_string()), Some("boom".to_string()));
    ctrl.set_diagnostics(None, None);
    assert_eq!(ctrl.tray().last_latency.as_deref(), Some("1.00"));
    assert_eq!(ctrl.tray().last_error, None);
}

#[test]
fn menu_labels() {
    let mut ctrl = controller();
    ctrl.set_state(TrayState::Recording);
    assert_eq!(ctrl.tray().status_label(), "🔴 Status: Recording...");
    assert_eq!(recent_entry_label(0, "short"), "1. short");
    let long = "a".repeat(40);
    assert_eq!(recent_entry_label(9, &long), format!("10. {}...", "a".repeat(36)));
    for i in 0..12 {
        ctrl.add_history(format!("item {i}"));
    }
    let labels = ctrl.tray().recent_labels();
    assert_eq!(labels.len(), 10);
    assert_eq!(labels[0], "1. item 11");
}

#[test]
fn daemon_states_drive_tray_and_hud() {
    let mut ctrl = controller();
    let h = on_daemon_state(&mut ctrl, DaemonState::Recording { device: Some("Mic".to_string()) }, false);
    assert_eq!(h, HudUpdate::Recording);
    assert_eq!(ctrl.tray().state, TrayState::Recording);
    assert_eq!(ctrl.tray().active_device.as_deref(), Some("Mic"));
    let h = on_daemon_state(&mut ctrl, DaemonState::Recording { device: None }, false);
    assert_eq!(h, HudUpdate::Recording);
    assert_eq!(ctrl.tray().active_device.as_deref(), Some("Mic"));
    assert_eq!(on_daemon_state(&mut ctrl, DaemonState::Idle, false), HudUpdate::Keep);
    assert_eq!(on_daemon_state(&mut ctrl, DaemonState::Idle, true), HudUpdate::Idle);
    assert_eq!(
        on_daemon_state(&mut ctrl, DaemonState::Degraded { reason: "x".to_string() }, true),
        HudUpdate::Keep
    );
    assert_eq!(ctrl.tray().state, TrayState::Degraded);
    assert_eq!(
        on_daemon_state(&mut ctrl, DaemonState::Error { message: "bad".to_string() }, true),
        HudUpdate::Error("bad".to_string())
    );
    assert_eq!(ctrl.tray().state, TrayState::Error);
}

#[test]
fn completed_transcriptions_and_connection_changes() {
    let mut ctrl = controller();
    ctrl.set_state(TrayState::Transcribing);
    ctrl.set_diagnostics(None, Some("old".to_string()));
    on_transcription_completed(&mut ctrl, "done text".to_string(), Some("2.10".to_string()));
    assert_eq!(ctrl.tray().state, TrayState::Idle);
    assert_eq!(ctrl.history(), vec!["done text".to_string()]);
    assert_eq!(ctrl.tray().last_error, None);
    assert_eq!(ctrl.tray().last_latency.as_deref(), Some("2.10"));
    on_diagnostics(&mut ctrl, "http://new".to_string(), None, None, Some("e".to_string()));
    assert_eq!(ctrl.tray().server_url, "http://new");
    assert_eq!(ctrl.tray().last_latency.as_deref(), Some("2.10"));
    on_connection(&mut ctrl, false);
    assert_eq!(ctrl.tray().state, TrayState::Degraded);
    on_connection(&mut ctrl, true);
    assert_eq!(ctrl.tray().state, TrayState::Idle);
}

#[test]
fn recent_menu_entries_and_separator() {
    let mut ctrl = controller();
    let empty = ctrl.tray().recent_menu();
    assert_eq!(empty.len(), 1);
    assert!(matches!(empty[0], RecentMenuEntry::BrowseHistory));
    ctrl.add_history("first dictation".to_string());
    ctrl.add_history("second dictation".to_string());
    let menu = ctrl.tray().recent_menu();
    assert_eq!(menu.len(), 4);
    match &menu[0] {
        RecentMenuEntry::Copy { label, text } => {
            assert_eq!(label, "1. second dictation");
            assert_eq!(text, "second dictation");
        }
        _ => panic!("expected a copy entry"),
    }
    assert!(matches!(menu[2], RecentMenuEntry::Separator));
    assert!(matches!(menu[3], RecentMenuEntry::BrowseHistory));
}

#[test]
fn tray_menu_layout() {
    let mut ctrl = controller();
    ctrl.add_history("hello".to_string());
    let menu = ctrl.tray().menu();
    assert_eq!(menu.len(), 7);
    match &menu[0] {
        TrayMenuEntry::Status(l) => assert_eq!(l, "● Status: Ready (Idle)"),
        _ => panic!("expected the status line"),
    }
    assert!(matches!(menu[1], TrayMenuEntry::Separator));
    assert!(matches!(menu[2], TrayMenuEntry::ToggleDictation));
    match &menu[3] {
        TrayMenuEntry::RecentDictations(sub) => assert_eq!(sub.len(), 3),
        _ => panic!("expected the recent submenu"),
    }
    assert!(matches!(menu[4], TrayMenuEntry::Settings));
    assert!(matches!(menu[5], TrayMenuEntry::Separator));
    assert!(matches!(menu[6], TrayMenuEntry::Quit));
}
