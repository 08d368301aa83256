use openwhisper::autostart::format_status_report;
use openwhisper::autostart::is_enabled;
use openwhisper::autostart::status;
use openwhisper::autostart::unit_state_is_on;
use openwhisper::autostart::AutostartStatus;
use openwhisper::autostart::SystemdProbes;
use openwhisper::config::OutputMode;
use openwhisper::doctor::checks::audio_capture_probe_due;
use openwhisper::doctor::checks::check_audio_hardware;
use openwhisper::doctor::checks::check_config;
use openwhisper::doctor::checks::check_daemon_and_ipc;
use openwhisper::doctor::checks::check_desktop_integration;
use openwhisper::doctor::checks::check_stt_backend;
use openwhisper::doctor::checks::check_wayland_and_input;
use openwhisper::doctor::checks::ConfigFile;
use openwhisper::doctor::checks::FileProbe;
use openwhisper::doctor::checks::InputTools;
use openwhisper::doctor::checks::SttProbeReply;
use openwhisper::doctor::checks::UinputAccess;
use openwhisper::doctor::diagnose;
use openwhisper::doctor::format_terminal_report;
use openwhisper::doctor::CheckResult;
use openwhisper::doctor::CheckStatus;
use openwhisper::doctor::DoctorReport;
use openwhisper::doctor::stamp_of_reading;
use openwhisper::hotkey::ipc::IpcResponse;

fn check(name: &str, status: CheckStatus) -> CheckResult {
    CheckResult {
        name: name.to_string(),
        status,
        summary: "s".to_string(),
        details: vec![],
        remediation: None,
    }
}

#[test]
fn test_doctor_report_status_aggregation() {
    let mut report = DoctorReport::new();
    assert_eq!(report.overall_status, CheckStatus::Pass);

    report.add(CheckResult {
        name: "PassCheck".to_string(),
        status: CheckStatus::Pass,
        summary: "All good".to_string(),
        details: vec![],
        remediation: None,
    });
    assert_eq!(report.overall_status, CheckStatus::Pass);

    report.add(CheckResult {
        name: "WarnCheck".to_string(),
        status: CheckStatus::Warn,
        summary: "Minor issue".to_string(),
        details: vec![],
        remediation: Some("Fix it".to_string()),
    });
    assert_eq!(report.overall_status, CheckStatus::Warn);

    report.add(CheckResult {
        name: "FailCheck".to_string(),
        status: CheckStatus::Fail,
        summary: "Major issue".to_string(),
        details: vec![],
        remediation: Some("Must fix".to_string()),
    });
    assert_eq!(report.overall_status, CheckStatus::Fail);
}

#[test]
fn test_doctor_terminal_formatting() {
    let mut report = DoctorReport::new();
    report.add(CheckResult {
        name: "TestCheck".to_string(),
        status: CheckStatus::Pass,
        summary: "Test summary".to_string(),
        details: vec!["Detail A".to_string(), "Detail B".to_string()],
        remediation: None,
    });

    let formatted = format_terminal_report(&report);
    assert!(formatted.contains("OpenWhisper System Diagnostics"));
    assert!(formatted.contains("TestCheck"));
    assert!(formatted.contains("Test summary"));
    assert!(formatted.contains("Detail A"));
    assert!(formatted.contains("1 passed"));
}

#[test]
fn warn_never_lowers_a_failure() {
    let mut report = DoctorReport::new();
    report.add(check("a", CheckStatus::Fail));
    report.add(check("b", CheckStatus::Warn));
    report.add(check("c", CheckStatus::Pass));
    assert_eq!(report.overall_status, CheckStatus::Fail);
    assert_eq!(report.checks.len(), 3);
}

#[test]
fn diagnose_keeps_order_and_aggregates() {
    let r = diagnose(
        check("Configuration", CheckStatus::Pass),
        check("Audio Hardware", CheckStatus::Warn),
        check("STT Inference Backend", CheckStatus::Pass),
        check("Virtual Input & Wayland", CheckStatus::Pass),
        check("Daemon & IPC Service", CheckStatus::Pass),
        check("Desktop Integration", CheckStatus::Pass),
    );
    assert_eq!(r.overall_status, CheckStatus::Warn);
    let names: Vec<&str> = r.checks.iter().map(|c| c.name.as_str()).collect();
    assert_eq!(names[0], "Configuration");
    assert_eq!(names[5], "Desktop Integration");
}

#[test]
fn test_check_config() {
    let res = check_config(
        "whisper",
        "http://localhost:8000/v1/audio/transcriptions",
        OutputMode::Paste,
        350,
        true,
        true,
        None,
        ConfigFile::Missing("/home/u/.config/openwhisper/config.toml".to_string()),
    );
    assert_eq!(res.name, "Configuration");
    assert!(res.details.iter().any(|d| d.contains("Model:")));
    assert!(res.details.iter().any(|d| d.contains("Server URL:")));
}

#[test]
fn config_check_details_and_outcomes() {
    let res = check_config(
        "whisper-large-v3",
        "http://x/v1",
        OutputMode::ClipboardOnly,
        420,
        false,
        true,
        Some("/data/rec"),
        ConfigFile::Found("/c.toml".to_string()),
    );
    assert_eq!(res.status, CheckStatus::Pass);
    assert_eq!(res.summary, "Loaded: /c.toml");
    assert_eq!(
        res.details,
        vec![
            "Model: whisper-large-v3",
            "Server URL: http://x/v1",
            "Output Mode: ClipboardOnly",
            "Hotkey Mode: PTT / Toggle (threshold: 420ms)",
            "Sound Feedback: Disabled",
            "HUD Overlay: Enabled",
            "Audio Dataset Directory: /data/rec",
        ]
    );
    assert!(res.remediation.is_none());

    let res = check_config("m", "u", OutputMode::Type, 1, true, false, None, ConfigFile::Unresolved("no home".to_string()));
    assert_eq!(res.status, CheckStatus::Warn);
    assert_eq!(res.summary, "Could not resolve user config path: no home");
    assert_eq!(res.remediation.as_deref(), Some("Ensure $HOME or standard XDG directories are configured"));
}

#[test]
fn test_check_desktop_integration() {
    let probe = |p: &str, e: bool| FileProbe { path: p.to_string(), exists: e };
    let res = check_desktop_integration(
        &probe("/h/icon.svg", true),
        &probe("/h/app.desktop", false),
        &probe("/h/ui.desktop", false),
        &probe("/h/auto.desktop", true),
        Some("[openwhisper_hud]".to_string()),
        3,
    );
    assert_eq!(res.name, "Desktop Integration");
    assert_eq!(res.status, CheckStatus::Warn);
    assert_eq!(res.summary, "Some desktop assets are not installed (Desktop entry missing in ~/.local/share/applications)");
    assert_eq!(
        res.details,
        vec![
            "Application icon: Found at /h/icon.svg",
            "XDG Autostart entry: Active at /h/auto.desktop",
            "KDE Plasma KWin rules: HUD positioning rule detected",
            "Evdev hardware input devices: 3 accessible",
        ]
    );
}

#[test]
fn audio_check_outcomes() {
    let err: Result<Vec<String>, String> = Err("no host".to_string());
    assert!(!audio_capture_probe_due(&err));
    let r = check_audio_hardware(None, &err, &None);
    assert_eq!(r.status, CheckStatus::Fail);
    assert_eq!(r.summary, "Failed to enumerate audio input devices: no host");

    let none: Result<Vec<String>, String> = Ok(vec![]);
    let r = check_audio_hardware(None, &none, &None);
    assert_eq!(r.summary, "No audio input devices (microphones) detected");

    let devs: Result<Vec<String>, String> = Ok(vec!["Mic A".to_string(), "Mic B".to_string()]);
    assert!(audio_capture_probe_due(&devs));
    let r = check_audio_hardware(Some("Mic B"), &devs, &Some(Ok("0.120".to_string())));
    assert_eq!(r.status, CheckStatus::Pass);
    assert_eq!(r.summary, "Audio capture stream verified on Mic B");
    assert_eq!(r.details[1], "Available devices: 2 detected (Mic A, Mic B)");
    assert_eq!(r.details[2], "Capture stream probe: Succeeded (peak RMS level: 0.120)");

    let r = check_audio_hardware(None, &devs, &Some(Err("busy".to_string())));
    assert_eq!(r.status, CheckStatus::Warn);
    assert_eq!(r.summary, "Device list queried, but opening stream on (System Default) failed: busy");
}

#[test]
fn stt_check_classifies_errors() {
    let url = "http://localhost:8000/v1/audio/transcriptions";
    let r = check_stt_backend(url, "whisper", false, &Err("Failed to connect to STT endpoint".to_string()));
    assert_eq!((r.status, r.summary.as_str()), (CheckStatus::Fail, format!("Connection refused to {url}").as_str()));
    let r = check_stt_backend(url, "whisper", true, &Err("status 401 Unauthorized".to_string()));
    assert_eq!(r.summary, "Authentication failed (HTTP 401/403)");
    assert_eq!(r.details[2], "API Key: Configured");
    let r = check_stt_backend(url, "tiny", false, &Err("404 Not Found".to_string()));
    assert_eq!(r.remediation.as_deref(), Some("Verify that model 'tiny' is loaded on the inference server"));
    let r = check_stt_backend(url, "tiny", false, &Err("weird".to_string()));
    assert_eq!(r.status, CheckStatus::Warn);
    assert_eq!(r.details.last().unwrap(), "Error message: weird");

    let reply = SttProbeReply {
        round_trip_ms: "12.5".to_string(),
        round_trip_ms_whole: "13".to_string(),
        text: "  hi \"there\"  ".to_string(),
    };
    let r = check_stt_backend(url, "whisper", false, &Ok(reply));
    assert_eq!(r.status, CheckStatus::Pass);
    assert_eq!(r.summary, format!("Endpoint responsive (13ms) at {url}"));
    assert_eq!(r.details[3], "Round-trip latency: 12.5ms");
    assert_eq!(r.details[4], "Probe response: \"hi \\\"there\\\"\"");
}

#[test]
fn input_check_outcomes() {
    let tools = InputTools { wl_copy: true, wl_paste: false, xclip: true, wtype: false, ydotool: true };
    let r = check_wayland_and_input(Some("wayland-0"), Some(":0"), UinputAccess::Granted, tools);
    assert_eq!(r.status, CheckStatus::Pass);
    assert_eq!(
        r.details,
        vec![
            "Wayland Display: wayland-0",
            "/dev/uinput: Read/write access verified (virtual keyboard enabled)",
            "Clipboard utilities: wl-copy (available), wl-paste (not found), xclip (available)",
            "Virtual typing fallback: wtype (not found), ydotool (available)",
        ]
    );
    let tools = InputTools { wl_copy: false, wl_paste: false, xclip: false, wtype: false, ydotool: false };
    let r = check_wayland_and_input(None, Some(":1"), UinputAccess::Denied("EACCES".to_string()), tools);
    assert_eq!(r.status, CheckStatus::Warn);
    assert_eq!(r.details[0], "X11 Display: :1 (Running under X11 / XWayland)");
    assert_eq!(r.details.len(), 3);
}

#[test]
fn daemon_check_outcomes() {
    let st = AutostartStatus {
        daemon_systemd_enabled: true,
        daemon_systemd_active: false,
        ui_systemd_enabled: false,
        ui_systemd_active: false,
        xdg_autostart_installed: true,
        xdg_autostart_path: "/a".to_string(),
    };
    let ok = Ok(IpcResponse { status: "ok".to_string(), message: "command processed".to_string() });
    let r = check_daemon_and_ipc("/run/ow.sock", &st, &ok, None);
    assert_eq!(r.status, CheckStatus::Pass);
    assert_eq!(r.details[1], "Autostart status: Daemon systemd: (enabled=true, active=false), UI systemd: (enabled=false, active=false), XDG autostart: (installed=true)");
    assert_eq!(r.details[2], "IPC Response: ok (command processed)");

    let r = check_daemon_and_ipc("/run/ow.sock", &st, &Err("refused".to_string()), Some("inactive\n".to_string()));
    assert_eq!(r.status, CheckStatus::Warn);
    assert_eq!(r.summary, "OpenWhisper background daemon is not running");
    assert_eq!(r.details[3], "systemd user service 'openwhisper.service': inactive");
}

#[test]
fn autostart_status_from_probes() {
    assert!(unit_state_is_on("enabled\n"));
    assert!(unit_state_is_on("active"));
    assert!(!unit_state_is_on("disabled"));
    let probes = SystemdProbes {
        daemon_enabled: Some("enabled\n".to_string()),
        daemon_active: Some("inactive\n".to_string()),
        ui_enabled: None,
        ui_active: Some("active".to_string()),
    };
    let st = status(&probes, false, "/x.desktop".to_string());
    assert!(st.daemon_systemd_enabled);
    assert!(!st.daemon_systemd_active);
    assert!(!st.ui_systemd_enabled);
    assert!(st.ui_systemd_active);
    assert!(is_enabled(&st));
    let text = format_status_report(&st);
    assert!(text.contains("Launch at startup is \x1b[1;32mENABLED\x1b[0m."));
    assert!(text.contains("(/x.desktop)"));
}

#[test]
fn new_report_is_stamped_in_utc() {
    let report = DoctorReport::new();
    assert!(report.timestamp.chars().count() >= 25);
    assert!(report.timestamp.ends_with("+00:00"));
    assert!(report.timestamp.contains('T'));
}

#[test]
fn report_with_timestamp_keeps_stamp() {
    let report = DoctorReport::with_timestamp(Some("2026-01-02T03:04:05+00:00".to_string()));
    assert_eq!(report.timestamp, "2026-01-02T03:04:05+00:00");
    assert!(report.checks.is_empty());
    let unstamped = DoctorReport::with_timestamp(None);
    assert_eq!(unstamped.timestamp, "");
}

#[test]
fn report_text_shows_every_check_and_the_verdict() {
    let mut report = DoctorReport::with_timestamp(None);
    report.add(CheckResult {
        name: "Audio Hardware".to_string(),
        status: CheckStatus::Warn,
        summary: "Fallback microphone".to_string(),
        details: vec!["Device: USB Mic".to_string()],
        remediation: Some("Plug the microphone in".to_string()),
    });
    report.add(check("Configuration", CheckStatus::Pass));
    let text = format_terminal_report(&report);
    assert!(text.contains("Audio Hardware"));
    assert!(text.contains("Fallback microphone"));
    assert!(text.contains("Device: USB Mic"));
    assert!(text.contains("Configuration"));
    assert!(text.contains("Summary: 1 passed, 1 warnings, 0 failures."));
    assert!(text.contains("Suggested Actions"));
    assert!(text.ends_with("\n\x1b[33m⚠️ OpenWhisper is operational with minor warnings.\x1b[0m\n"));
}

#[test]
fn stamp_of_reading_formats_utc() {
    assert_eq!(stamp_of_reading(None), None);
    assert_eq!(stamp_of_reading(Some((0, 0))), Some("1970-01-01T00:00:00+00:00".to_string()));
    assert_eq!(stamp_of_reading(Some((1431648000, 0))), Some("2015-05-15T00:00:00+00:00".to_string()));
    assert_eq!(stamp_of_reading(Some((1431648000, 500_000_000))), Some("2015-05-15T00:00:00.500+00:00".to_string()));
    assert_eq!(stamp_of_reading(Some((u64::MAX, 0))), None);
}

#[test]
fn report_without_remediation_has_no_actions_section() {
    let mut report = DoctorReport::with_timestamp(None);
    report.add(check("Configuration", CheckStatus::Pass));
    report.add(check("Daemon", CheckStatus::Warn));
    let text = format_terminal_report(&report);
    assert!(!text.contains("Suggested Actions"));
}

#[test]
fn autostart_verdict_ignores_ui_service_flags() {
    let base = AutostartStatus {
        daemon_systemd_enabled: false,
        daemon_systemd_active: true,
        ui_systemd_enabled: true,
        ui_systemd_active: true,
        xdg_autostart_installed: false,
        xdg_autostart_path: "/home/u/.config/autostart/openwhisper.desktop".to_string(),
    };
    let text = format_status_report(&base);
    assert!(text.contains("/home/u/.config/autostart/openwhisper.desktop"));
    assert!(text.contains("DISABLED"));
    assert!(text.contains("openwhisper autostart --enable"));
    let enabled = AutostartStatus { xdg_autostart_installed: true, ..base };
    assert!(format_status_report(&enabled).ends_with("Launch at startup is \x1b[1;32mENABLED\x1b[0m.\n"));
}
