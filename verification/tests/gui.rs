use openwhisper::config::HudPosition;
use openwhisper::config::OutputMode;
use openwhisper::gui::add_vocabulary_word;
use openwhisper::gui::config_to_ui;
use openwhisper::gui::remove_vocabulary_word;
use openwhisper::gui::ui_to_config;
use openwhisper::gui::Settings;
use openwhisper::transcribe::formatting::FormattingMode;

fn devices() -> Vec<String> {
    vec![
        "(System Default)".to_string(),
        "USB Audio Interface".to_string(),
        "Builtin Microphone".to_string(),
    ]
}

fn settings() -> Settings {
    Settings {
        server_url: "http://custom-host:8000/v1/audio/transcriptions".to_string(),
        model: "whisper-large-v3".to_string(),
        api_key: Some("test-api-token".to_string()),
        language: None,
        prompt: Some("Biasing prompt".to_string()),
        audio_device: Some("Builtin Microphone".to_string()),
        noise_suppression: true,
        save_audio_dir: Some("/tmp/recordings".to_string()),
        evdev_hotkey_enabled: true,
        evdev_hotkey: "KEY_RIGHTALT".to_string(),
        ptt_threshold_ms: 450,
        output_mode: OutputMode::Type,
        paste_delay_ms: 65,
        restore_clipboard: false,
        sound_feedback: true,
        show_notifications: false,
        hud_enabled: true,
        hud_position: HudPosition::TopRight,
        vad_enabled: true,
        vad_silence_timeout_ms: 2500,
        formatting_mode: FormattingMode::KebabCase,
        trailing_space: false,
        vocabulary: vec!["Slint".to_string(), "Wayland".to_string(), "Rust".to_string()],
    }
}

#[test]
fn test_settings_window_comprehensive_suite() {
    let s = settings();
    let form = config_to_ui(&s, &devices());
    assert_eq!(form.server_url, "http://custom-host:8000/v1/audio/transcriptions");
    assert_eq!(form.language, "");
    assert_eq!(form.ptt_threshold, 450);
    assert_eq!(form.output_mode_index, 2);
    assert_eq!(form.audio_device_index, 2);
    assert_eq!(form.hud_position_index, 3);
    assert_eq!(form.formatting_mode_index, 3);

    let back = ui_to_config(&form, &devices());
    assert_eq!(back.server_url, s.server_url);
    assert_eq!(back.api_key, s.api_key);
    assert_eq!(back.language, None);
    assert_eq!(back.audio_device, s.audio_device);
    assert_eq!(back.ptt_threshold_ms, 450);
    assert_eq!(back.output_mode, OutputMode::Type);
    assert_eq!(back.hud_position, HudPosition::TopRight);
    assert_eq!(back.vocabulary, s.vocabulary);

    let mut edited = form;
    edited.server_url = "  http://localhost:8000/v1  ".to_string();
    edited.model_name = "  whisper-1  ".to_string();
    edited.api_key = "   ".to_string();
    edited.ptt_threshold = 10;
    edited.paste_delay = 1;
    edited.vad_silence_timeout = 20;
    edited.audio_device_index = 7;
    edited.vocabulary = vec!["Fedora".to_string(), "  Plasma  ".to_string(), "Fedora".to_string(), " ".to_string()];
    let back = ui_to_config(&edited, &devices());
    assert_eq!(back.server_url, "http://localhost:8000/v1");
    assert_eq!(back.model, "whisper-1");
    assert_eq!(back.api_key, None);
    assert_eq!(back.ptt_threshold_ms, 50);
    assert_eq!(back.paste_delay_ms, 5);
    assert_eq!(back.vad_silence_timeout_ms, 100);
    assert_eq!(back.audio_device, None);
    assert_eq!(back.vocabulary, vec!["Fedora".to_string(), "Plasma".to_string()]);
}

#[test]
fn missing_device_shows_the_system_default() {
    let mut s = settings();
    s.audio_device = Some("Nonexistent Bluetooth Mic".to_string());
    assert_eq!(config_to_ui(&s, &devices()).audio_device_index, 0);
    s.audio_device = Some("Builtin".to_string());
    assert_eq!(config_to_ui(&s, &devices()).audio_device_index, 2);
}

#[test]
fn test_vocabulary_vec_model_operations() {
    let mut words = vec!["Kubernetes".to_string(), "OpenVINO".to_string()];
    assert_eq!(words.len(), 2);
    add_vocabulary_word(&mut words, "Wayland");
    assert_eq!(words.len(), 3);
    assert_eq!(words[2], "Wayland");
    remove_vocabulary_word(&mut words, 1);
    assert_eq!(words.len(), 2);
    assert_eq!(words[0], "Kubernetes");
    assert_eq!(words[1], "Wayland");
}

#[test]
fn adding_a_word_trims_and_skips_duplicates_ignoring_case() {
    let mut words = vec!["Kubernetes".to_string()];
    add_vocabulary_word(&mut words, "  kubernetes ");
    add_vocabulary_word(&mut words, "   ");
    add_vocabulary_word(&mut words, " Rust ");
    assert_eq!(words, vec!["Kubernetes".to_string(), "Rust".to_string()]);
    remove_vocabulary_word(&mut words, 5);
    remove_vocabulary_word(&mut words, -1);
    assert_eq!(words.len(), 2);
}
