use openwhisper::config::HudPosition;
use openwhisper::setup::hud_window_position;
use openwhisper::setup::kwin_hud_rules;
use openwhisper::setup::kwin_position_value;
use openwhisper::setup::merge_rule_list;
use openwhisper::setup::parse_i32;
use openwhisper::setup::screen_size_from_kscreen;
use openwhisper::setup::screen_size_from_xrandr;
use openwhisper::setup::split_lines;
use openwhisper::setup::split_whitespace_chars;
use openwhisper::setup::strip_ansi;

fn chars(s: &str) -> Vec<char> {
    s.chars().collect()
}

#[test]
fn test_strip_ansi() {
    let input = "\x1b[01;33m\tGeometry: \x1b[0;0m0,0 1707x1067";
    let cleaned = strip_ansi(input);
    assert_eq!(cleaned, "\tGeometry: 0,0 1707x1067");
}

#[test]
fn strip_ansi_keeps_plain_text() {
    assert_eq!(strip_ansi("plain"), "plain");
    assert_eq!(strip_ansi("a\x1b[1mb\x1b[0mc"), "abc");
    assert_eq!(strip_ansi("\x1b[unterminated"), "inated");
    assert_eq!(strip_ansi("x\x1b[12;3"), "x");
}

#[test]
fn test_detect_screen_geometry_bounds() {
    let kscreen = "Output: 1 eDP-1 enabled connected priority 1 Panel\n\x1b[01;33m\tGeometry: \x1b[0;0m0,0 1707x1067\n";
    let (w, h) = screen_size_from_kscreen(kscreen).unwrap();
    assert!(w >= 640);
    assert!(h >= 480);
    assert_eq!((w, h), (1707, 1067));
}

#[test]
fn kscreen_words_need_a_plausible_size() {
    assert_eq!(screen_size_from_kscreen("Geometry: 0,0 320x200\nGeometry: 0,0 2560x1440\n"), Some((2560, 1440)));
    assert_eq!(screen_size_from_kscreen("Modes: 1920x1080@60\n"), None);
    assert_eq!(screen_size_from_kscreen("Geometry: 1920x1080@60 1x2x3\n"), None);
    assert_eq!(screen_size_from_kscreen(""), None);
}

#[test]
fn xrandr_connected_output() {
    let out = "Screen 0: minimum 320 x 200, current 1920 x 1080\nHDMI-1 disconnected (normal)\neDP-1 connected primary 1920x1080+0+0 (normal left inverted) 344mm x 193mm\n";
    assert_eq!(screen_size_from_xrandr(out), Some((1920, 1080)));
    assert_eq!(screen_size_from_xrandr("DP-2 connected 800x200+0+0\n"), None);
    assert_eq!(screen_size_from_xrandr("no outputs here\n"), None);
}

#[test]
fn integer_parsing_matches_std() {
    for s in ["0", "-0", "+17", "2147483647", "-2147483648", "2147483648", "-", "+", "", "12a", "007"] {
        assert_eq!(parse_i32(&chars(s)), s.parse::<i32>().ok(), "input {s:?}");
    }
}

#[test]
fn lines_and_words_match_std() {
    for s in ["a\nb", "a\r\nb\r\n", "\n\nx", "x\r", "", "  lead  and  trail  "] {
        let lines: Vec<String> = split_lines(&chars(s)).iter().map(|l| l.iter().collect()).collect();
        let expected: Vec<String> = s.lines().map(|l| l.to_string()).collect();
        assert_eq!(lines, expected, "input {s:?}");
        let words: Vec<String> = split_whitespace_chars(&chars(s)).iter().map(|w| w.iter().collect()).collect();
        let expected: Vec<String> = s.split_whitespace().map(|w| w.to_string()).collect();
        assert_eq!(words, expected, "input {s:?}");
    }
}

#[test]
fn hud_positions_on_a_full_hd_screen() {
    assert_eq!(hud_window_position(HudPosition::BottomCenter, 1920, 1080), (815, 972));
    assert_eq!(hud_window_position(HudPosition::TopCenter, 1920, 1080), (815, 60));
    assert_eq!(hud_window_position(HudPosition::BottomRight, 1920, 1080), (1590, 972));
    assert_eq!(hud_window_position(HudPosition::TopRight, 1920, 1080), (1590, 60));
    assert_eq!(hud_window_position(HudPosition::TopCenter, 1, 0), (-144, 60));
    assert_eq!(kwin_position_value(815, 972), "815,972");
    assert_eq!(kwin_position_value(-144, 60), "-144,60");
}

#[test]
fn hud_rule_joins_the_rule_list_once() {
    assert_eq!(merge_rule_list("", "openwhisper_hud"), Some("openwhisper_hud".to_string()));
    assert_eq!(merge_rule_list(" a,b \n", "openwhisper_hud"), Some("a,b,openwhisper_hud".to_string()));
    assert_eq!(merge_rule_list("a, openwhisper_hud ,b", "openwhisper_hud"), None);
    assert_eq!(merge_rule_list("openwhisper_hud2", "openwhisper_hud"), Some("openwhisper_hud2,openwhisper_hud".to_string()));
    let rules = kwin_hud_rules();
    assert_eq!(rules.len(), 12);
    assert_eq!(rules[1], ("wmclass".to_string(), "net.local.openwhisper.hud".to_string()));
}
