use openwhisper::config::active_device_index;
use openwhisper::config::at_least;
use openwhisper::config::default_evdev_hotkey;
use openwhisper::config::default_hud_position;
use openwhisper::config::default_model;
use openwhisper::config::default_output_mode;
use openwhisper::config::default_paste_delay_ms;
use openwhisper::config::default_ptt_threshold_ms;
use openwhisper::config::default_server_url;
use openwhisper::config::default_vad_silence_timeout_ms;
use openwhisper::config::formatting_mode_from_index;
use openwhisper::config::formatting_mode_index;
use openwhisper::config::hud_position_from_index;
use openwhisper::config::hud_position_index;
use openwhisper::config::optional_field;
use openwhisper::config::output_mode_from_index;
use openwhisper::config::output_mode_index;
use openwhisper::config::parse_evdev_key;
use openwhisper::config::selected_device;
use openwhisper::config::HudPosition;
use openwhisper::config::OutputMode;
use openwhisper::transcribe::formatting::FormattingMode;

#[test]
fn test_default_config() {
    assert_eq!(default_server_url(), "http://localhost:8000/v1/audio/transcriptions");
    assert_eq!(default_model(), "whisper");
    assert_eq!(default_ptt_threshold_ms(), 350);
    assert_eq!(default_vad_silence_timeout_ms(), 1800);
    assert_eq!(default_paste_delay_ms(), 60);
    assert_eq!(default_output_mode(), OutputMode::Paste);
    assert_eq!(default_hud_position(), HudPosition::BottomCenter);
}

#[test]
fn test_evdev_config_and_key_parsing() {
    assert_eq!(default_evdev_hotkey(), "KEY_RIGHTALT");
    let right_alt = evdev::Key::KEY_RIGHTALT.code();
    let help = evdev::Key::KEY_HELP.code();
    let micmute = evdev::Key::KEY_MICMUTE.code();
    assert_eq!(parse_evdev_key("KEY_RIGHTALT"), Some(right_alt));
    assert_eq!(parse_evdev_key("rightalt"), Some(right_alt));
    assert_eq!(parse_evdev_key("RightAlt"), Some(right_alt));
    assert_eq!(parse_evdev_key("100"), Some(right_alt));
    assert_eq!(parse_evdev_key("KEY_HELP"), Some(help));
    assert_eq!(parse_evdev_key("help"), Some(help));
    assert_eq!(parse_evdev_key("Help"), Some(help));
    assert_eq!(parse_evdev_key("138"), Some(help));
    assert_eq!(parse_evdev_key("KEY_MICMUTE"), Some(micmute));
    assert_eq!(parse_evdev_key("micmute"), Some(micmute));
    assert_eq!(parse_evdev_key("nonexistent_key_12345"), None);
}

#[test]
fn numeric_key_codes_follow_integer_parsing() {
    assert_eq!(parse_evdev_key(" +42 "), Some(42));
    assert_eq!(parse_evdev_key("65535"), Some(65535));
    assert_eq!(parse_evdev_key("65536"), None);
    assert_eq!(parse_evdev_key(""), None);
}

#[test]
fn selector_indices_round_trip() {
    for m in [OutputMode::Paste, OutputMode::ClipboardOnly, OutputMode::Type] {
        assert_eq!(output_mode_from_index(output_mode_index(m)), m);
    }
    for p in [HudPosition::BottomCenter, HudPosition::TopCenter, HudPosition::BottomRight, HudPosition::TopRight] {
        assert_eq!(hud_position_from_index(hud_position_index(p)), p);
    }
    for f in [
        FormattingMode::Standard,
        FormattingMode::SnakeCase,
        FormattingMode::CamelCase,
        FormattingMode::KebabCase,
        FormattingMode::Raw,
    ] {
        assert_eq!(formatting_mode_from_index(formatting_mode_index(f)), f);
    }
    assert_eq!(output_mode_from_index(9), OutputMode::Paste);
    assert_eq!(hud_position_from_index(-1), HudPosition::BottomCenter);
}

#[test]
fn settings_fields_are_cleaned() {
    assert_eq!(at_least(10, 50), 50);
    assert_eq!(at_least(400, 50), 400);
    assert_eq!(optional_field("   "), None);
    assert_eq!(optional_field("  en "), Some("en".to_string()));
    let devices = vec!["(System Default)".to_string(), "USB Mic".to_string(), "Builtin".to_string()];
    assert_eq!(selected_device(&devices, 0), None);
    assert_eq!(selected_device(&devices, 2), Some("Builtin".to_string()));
    assert_eq!(selected_device(&devices, 3), None);
    assert_eq!(active_device_index(&devices, Some("USB Mic")), 1);
    assert_eq!(active_device_index(&devices, None), 0);
}
