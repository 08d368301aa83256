use evdev::Key;
use openwhisper::config::OutputMode;
use openwhisper::output::injector::can_type_with_uinput;
use openwhisper::output::injector::char_to_evdev_key;
use openwhisper::output::injector::keystrokes_for_text;
use openwhisper::output::injector::paste_keystrokes;
use openwhisper::output::injector::virtual_keyboard_keys;
use openwhisper::output::Injection;
use openwhisper::output::OutputManager;

fn code(k: Key) -> u16 {
    k.code()
}

#[test]
fn test_char_to_evdev_key_letters_and_digits() {
    assert_eq!(char_to_evdev_key('a'), Some((code(Key::KEY_A), false)));
    assert_eq!(char_to_evdev_key('Z'), Some((code(Key::KEY_Z), true)));
    assert_eq!(char_to_evdev_key('5'), Some((code(Key::KEY_5), false)));
    assert_eq!(char_to_evdev_key(' '), Some((code(Key::KEY_SPACE), false)));
    assert_eq!(char_to_evdev_key('\n'), Some((code(Key::KEY_ENTER), false)));
}

#[test]
fn test_char_to_evdev_key_symbols_and_shifts() {
    assert_eq!(char_to_evdev_key('!'), Some((code(Key::KEY_1), true)));
    assert_eq!(char_to_evdev_key('@'), Some((code(Key::KEY_2), true)));
    assert_eq!(char_to_evdev_key('-'), Some((code(Key::KEY_MINUS), false)));
    assert_eq!(char_to_evdev_key('_'), Some((code(Key::KEY_MINUS), true)));
    assert_eq!(char_to_evdev_key('?'), Some((code(Key::KEY_SLASH), true)));
    assert_eq!(char_to_evdev_key(':'), Some((code(Key::KEY_SEMICOLON), true)));
}

#[test]
fn test_can_type_with_uinput() {
    assert!(can_type_with_uinput("Hello, World! 123"));
    assert!(can_type_with_uinput("cargo build --release\n"));
    assert!(!can_type_with_uinput(""));
    assert!(!can_type_with_uinput("Café"));
    assert!(!can_type_with_uinput("Hello 🚀"));
}

#[test]
fn every_key_constant_matches_evdev() {
    let all = [
        Key::KEY_1, Key::KEY_2, Key::KEY_3, Key::KEY_4, Key::KEY_5, Key::KEY_6, Key::KEY_7, Key::KEY_8,
        Key::KEY_9, Key::KEY_0, Key::KEY_MINUS, Key::KEY_EQUAL, Key::KEY_BACKSPACE, Key::KEY_TAB,
        Key::KEY_Q, Key::KEY_W, Key::KEY_E, Key::KEY_R, Key::KEY_T, Key::KEY_Y, Key::KEY_U, Key::KEY_I,
        Key::KEY_O, Key::KEY_P, Key::KEY_LEFTBRACE, Key::KEY_RIGHTBRACE, Key::KEY_ENTER, Key::KEY_LEFTCTRL,
        Key::KEY_A, Key::KEY_S, Key::KEY_D, Key::KEY_F, Key::KEY_G, Key::KEY_H, Key::KEY_J, Key::KEY_K,
        Key::KEY_L, Key::KEY_SEMICOLON, Key::KEY_APOSTROPHE, Key::KEY_GRAVE, Key::KEY_LEFTSHIFT,
        Key::KEY_BACKSLASH, Key::KEY_Z, Key::KEY_X, Key::KEY_C, Key::KEY_V, Key::KEY_B, Key::KEY_N,
        Key::KEY_M, Key::KEY_COMMA, Key::KEY_DOT, Key::KEY_SLASH, Key::KEY_SPACE, Key::KEY_INSERT,
    ];
    let declared = virtual_keyboard_keys();
    assert_eq!(declared.len(), all.len());
    for k in all {
        assert!(declared.contains(&k.code()), "{k:?}");
    }
}

#[test]
fn typing_and_paste_keystrokes() {
    let a = code(Key::KEY_A);
    let shift = code(Key::KEY_LEFTSHIFT);
    assert_eq!(
        keystrokes_for_text("aA"),
        vec![(a, 1), (a, 0), (shift, 1), (a, 1), (a, 0), (shift, 0), (shift, 0)]
    );
    assert_eq!(keystrokes_for_text("é"), vec![(shift, 0)]);
    let (down, up) = paste_keystrokes();
    let ctrl = code(Key::KEY_LEFTCTRL);
    let v = code(Key::KEY_V);
    assert_eq!(down, vec![(ctrl, 1), (v, 1)]);
    assert_eq!(up, vec![(v, 0), (ctrl, 0)]);
}

#[test]
fn output_plans_by_mode() {
    let paste = OutputManager::new(OutputMode::Paste, 60, true);
    let p = paste.plan("hello");
    assert!(p.output && p.save_clipboard);
    assert_eq!(p.injection, Injection::PasteShortcut { delay_ms: 60 });
    assert!(!paste.plan("  \n").output);

    let mut m = OutputManager::new(OutputMode::ClipboardOnly, 60, true);
    let p = m.plan("hello");
    assert!(p.output && !p.save_clipboard);
    assert_eq!(p.injection, Injection::Nothing);

    m.update_config(OutputMode::Type, 5, false);
    let p = m.plan("hello");
    assert!(!p.save_clipboard);
    assert_eq!(p.injection, Injection::TypeText);
}

#[test]
fn clipboard_restore_rules() {
    let paste = OutputManager::new(OutputMode::Paste, 60, true);
    assert_eq!(paste.restore_after("new", Some("old".to_string())), Some(("old".to_string(), 350)));
    assert_eq!(paste.restore_after("same", Some("same".to_string())), None);
    assert_eq!(paste.restore_after("new", None), None);
    let typing = OutputManager::new(OutputMode::Type, 60, true);
    assert_eq!(typing.restore_after("new", Some("old".to_string())), Some(("old".to_string(), 5000)));
}
