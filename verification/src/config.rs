//! Configuration vocabulary: output and HUD placement modes, the default values
//! of the settings, and how the settings panel's fields map onto them.
use vstd::prelude::*;
use vstd::string::StringExecFns;

use crate::text::{str_to_uppercase, uppercase_of, push_str, vec_from_range,
    chars_of, chars_equal, contains_seq, push_chars, str_contains, string_from_chars, trim_chars, trim_seq, views, all_digits, digits_value, lemma_digits_value_grows};
use crate::transcribe::formatting::FormattingMode;

verus! {

/// Where the floating HUD overlay is placed on screen.
#[derive(Debug, Clone, Copy, PartialEq, Eq, Structural)]
pub enum HudPosition {
    BottomCenter,
    TopCenter,
    BottomRight,
    TopRight,
}

/// How a transcript reaches the focused application.
#[derive(Debug, Clone, Copy, PartialEq, Eq, Structural)]
pub enum OutputMode {
    /// Copies text to clipboard AND simulates Ctrl+V to paste immediately into the active cursor
    Paste,
    /// Only copies text to clipboard without simulating keypresses
    ClipboardOnly,
    /// Simulates direct keystrokes character-by-character
    Type,
}

pub fn default_hud_position() -> (p: HudPosition)
    ensures
        p == HudPosition::BottomCenter,
{
    HudPosition::BottomCenter
}

pub fn default_server_url() -> (s: String)
    ensures
        s@ == "http://localhost:8000/v1/audio/transcriptions"@,
{
    String::from_str("http://localhost:8000/v1/audio/transcriptions")
}

pub fn default_model() -> (s: String)
    ensures
        s@ == "whisper"@,
{
    String::from_str("whisper")
}

pub fn default_ptt_threshold_ms() -> (v: u64)
    ensures
        v == 350,
{
    350
}

pub fn default_paste_delay_ms() -> (v: u64)
    ensures
        v == 60,
{
    60
}

pub fn default_output_mode() -> (m: OutputMode)
    ensures
        m == OutputMode::Paste,
{
    OutputMode::Paste
}

pub fn default_true() -> (b: bool)
    ensures
        b,
{
    true
}

pub fn default_false() -> (b: bool)
    ensures
        !b,
{
    false
}

pub fn default_vad_silence_timeout_ms() -> (v: u64)
    ensures
        v == 1800,
{
    1800
}

/// The built-in vocabulary used to bias Whisper's decoding.
pub open spec fn default_vocabulary_words() -> Seq<Seq<char>> {
    seq![
        "Rust"@,
        "Wayland"@,
        "KDE"@,
        "OpenVINO"@,
        "cpal"@,
        "tokio"@,
        "uinput"@,
        "Fedora"@,
    ]
}

pub fn default_vocabulary() -> (v: Vec<String>)
    ensures
        views(v@) == default_vocabulary_words(),
{
    let v = vec![
        String::from_str("Rust"),
        String::from_str("Wayland"),
        String::from_str("KDE"),
        String::from_str("OpenVINO"),
        String::from_str("cpal"),
        String::from_str("tokio"),
        String::from_str("uinput"),
        String::from_str("Fedora"),
    ];
    assert(views(v@) =~= default_vocabulary_words());
    v
}

pub fn default_evdev_hotkey() -> (s: String)
    ensures
        s@ == "KEY_RIGHTALT"@,
{
    String::from_str("KEY_RIGHTALT")
}

/// Index of the output mode in the settings panel's selector.
pub open spec fn output_mode_slot(m: OutputMode) -> i32 {
    match m {
        OutputMode::Paste => 0,
        OutputMode::ClipboardOnly => 1,
        OutputMode::Type => 2,
    }
}

/// The output mode at index `i` of the selector; unknown indices mean Paste.
pub open spec fn output_mode_at(i: i32) -> OutputMode {
    if i == 1 {
        OutputMode::ClipboardOnly
    } else if i == 2 {
        OutputMode::Type
    } else {
        OutputMode::Paste
    }
}

/// Index of the HUD position in the settings panel's selector.
pub open spec fn hud_position_slot(p: HudPosition) -> i32 {
    match p {
        HudPosition::BottomCenter => 0,
        HudPosition::TopCenter => 1,
        HudPosition::BottomRight => 2,
        HudPosition::TopRight => 3,
    }
}

/// The HUD position at index `i`; unknown indices mean bottom center.
pub open spec fn hud_position_at(i: i32) -> HudPosition {
    if i == 1 {
        HudPosition::TopCenter
    } else if i == 2 {
        HudPosition::BottomRight
    } else if i == 3 {
        HudPosition::TopRight
    } else {
        HudPosition::BottomCenter
    }
}

/// Index of the formatting mode in the settings panel's selector.
pub open spec fn formatting_mode_slot(m: FormattingMode) -> i32 {
    match m {
        FormattingMode::Standard => 0,
        FormattingMode::SnakeCase => 1,
        FormattingMode::CamelCase => 2,
        FormattingMode::KebabCase => 3,
        FormattingMode::Raw => 4,
    }
}

/// The formatting mode at index `i`; unknown indices mean Standard.
pub open spec fn formatting_mode_at(i: i32) -> FormattingMode {
    if i == 1 {
        FormattingMode::SnakeCase
    } else if i == 2 {
        FormattingMode::CamelCase
    } else if i == 3 {
        FormattingMode::KebabCase
    } else if i == 4 {
        FormattingMode::Raw
    } else {
        FormattingMode::Standard
    }
}

pub fn output_mode_index(m: OutputMode) -> (i: i32)
    ensures
        i == output_mode_slot(m),
{
    match m {
        OutputMode::Paste => 0,
        OutputMode::ClipboardOnly => 1,
        OutputMode::Type => 2,
    }
}

pub fn output_mode_from_index(i: i32) -> (m: OutputMode)
    ensures
        m == output_mode_at(i),
{
    if i == 1 {
        OutputMode::ClipboardOnly
    } else if i == 2 {
        OutputMode::Type
    } else {
        OutputMode::Paste
    }
}

pub fn hud_position_index(p: HudPosition) -> (i: i32)
    ensures
        i == hud_position_slot(p),
{
    match p {
        HudPosition::BottomCenter => 0,
        HudPosition::TopCenter => 1,
        HudPosition::BottomRight => 2,
        HudPosition::TopRight => 3,
    }
}

pub fn hud_position_from_index(i: i32) -> (p: HudPosition)
    ensures
        p == hud_position_at(i),
{
    if i == 1 {
        HudPosition::TopCenter
    } else if i == 2 {
        HudPosition::BottomRight
    } else if i == 3 {
        HudPosition::TopRight
    } else {
        HudPosition::BottomCenter
    }
}

pub fn formatting_mode_index(m: FormattingMode) -> (i: i32)
    ensures
        i == formatting_mode_slot(m),
{
    match m {
        FormattingMode::Standard => 0,
        FormattingMode::SnakeCase => 1,
        FormattingMode::CamelCase => 2,
        FormattingMode::KebabCase => 3,
        FormattingMode::Raw => 4,
    }
}

pub fn formatting_mode_from_index(i: i32) -> (m: FormattingMode)
    ensures
        m == formatting_mode_at(i),
{
    if i == 1 {
        FormattingMode::SnakeCase
    } else if i == 2 {
        FormattingMode::CamelCase
    } else if i == 3 {
        FormattingMode::KebabCase
    } else if i == 4 {
        FormattingMode::Raw
    } else {
        FormattingMode::Standard
    }
}

/// Showing a setting in the panel and reading it back gives the same setting,
/// for every output mode, HUD position and formatting mode.
pub proof fn lemma_selector_round_trip(m: OutputMode, p: HudPosition, f: FormattingMode)
    ensures
        output_mode_at(output_mode_slot(m)) == m,
        hud_position_at(hud_position_slot(p)) == p,
        formatting_mode_at(formatting_mode_slot(f)) == f,
{
}

/// A number field's value, read as the unsigned setting it edits, but at least
/// `min` (`(v as u64).max(min)`).
pub fn at_least(v: i32, min: u64) -> (r: u64)
    ensures
        r == if (v as u64) < min {
            min
        } else {
            v as u64
        },
{
    let x = v as u64;
    if x < min {
        min
    } else {
        x
    }
}

/// The text field's content trimmed, or `None` if nothing is left.
pub fn optional_field(s: &str) -> (r: Option<String>)
    ensures
        r matches Some(t) ==> trim_seq(s@).len() > 0 && t@ == trim_seq(s@),
        r is None ==> trim_seq(s@).len() == 0,
{
    let cs = chars_of(s);
    let t = trim_chars(cs.as_slice());
    if t.len() == 0 {
        None
    } else {
        Some(string_from_chars(t.as_slice()))
    }
}

/// The vocabulary list as edited: entries trimmed, empty and repeated ones left
/// out, first occurrences kept in order.
pub open spec fn edited_vocabulary(words: Seq<Seq<char>>) -> Seq<Seq<char>>
    decreases words.len(),
{
    if words.len() == 0 {
        Seq::empty()
    } else {
        let rest = edited_vocabulary(words.drop_last());
        let t = trim_seq(words.last());
        if t.len() > 0 && !rest.contains(t) {
            rest.push(t)
        } else {
            rest
        }
    }
}

fn contains_word(list: &Vec<Vec<char>>, w: &Vec<char>) -> (r: bool)
    ensures
        r == list@.map_values(|v: Vec<char>| v@).contains(w@),
{
    let ghost vs = list@.map_values(|v: Vec<char>| v@);
    let mut i: usize = 0;
    while i < list.len()
        invariant
            i <= list@.len(),
            vs == list@.map_values(|v: Vec<char>| v@),
            forall|k: int| 0 <= k < i ==> vs[k] != w@,
        decreases list.len() - i,
    {
        if chars_equal(list[i].as_slice(), w.as_slice()) {
            assert(vs[i as int] == w@);
            return true;
        }
        i = i + 1;
    }
    false
}

/// Cleans the vocabulary list from the settings panel.
pub fn clean_vocabulary_list(words: &[String]) -> (r: Vec<String>)
    ensures
        views(r@) == edited_vocabulary(views(words@)),
{
    let ghost ws = views(words@);
    let mut kept: Vec<Vec<char>> = Vec::new();
    let mut i: usize = 0;
    while i < words.len()
        invariant
            i <= words@.len(),
            ws == views(words@),
            kept@.map_values(|v: Vec<char>| v@) == edited_vocabulary(ws.take(i as int)),
        decreases words.len() - i,
    {
        assert(ws.take(i + 1).drop_last() =~= ws.take(i as int));
        assert(ws[i as int] == words@[i as int]@);
        let cs = chars_of(words[i].as_str());
        let t = trim_chars(cs.as_slice());
        if t.len() > 0 && !contains_word(&kept, &t) {
            let ghost old_kept = kept@;
            kept.push(t);
            assert(kept@.map_values(|v: Vec<char>| v@) =~= old_kept.map_values(|v: Vec<char>| v@).push(t@));
        }
        i = i + 1;
    }
    assert(ws.take(words@.len() as int) =~= ws);
    let mut r: Vec<String> = Vec::new();
    let mut j: usize = 0;
    while j < kept.len()
        invariant
            j <= kept@.len(),
            views(r@) == kept@.map_values(|v: Vec<char>| v@).take(j as int),
        decreases kept.len() - j,
    {
        let s = string_from_chars(kept[j].as_slice());
        let ghost old_r = r@;
        r.push(s);
        assert(views(r@) =~= views(old_r).push(s@));
        assert(kept@.map_values(|v: Vec<char>| v@).take(j + 1) =~= kept@.map_values(|v: Vec<char>| v@).take(j as int).push(kept@[j as int]@));
        j = j + 1;
    }
    assert(kept@.map_values(|v: Vec<char>| v@).take(kept@.len() as int) =~= kept@.map_values(|v: Vec<char>| v@));
    r
}

/// The edited vocabulary never holds an empty or repeated entry.
pub proof fn lemma_edited_vocabulary_clean(words: Seq<Seq<char>>)
    ensures
        forall|i: int| 0 <= i < edited_vocabulary(words).len() ==> #[trigger] edited_vocabulary(words)[i].len() > 0,
        edited_vocabulary(words).no_duplicates(),
    decreases words.len(),
{
    if words.len() > 0 {
        lemma_edited_vocabulary_clean(words.drop_last());
        let rest = edited_vocabulary(words.drop_last());
        let t = trim_seq(words.last());
        if t.len() > 0 && !rest.contains(t) {
            let r = rest.push(t);
            assert forall|i: int, j: int| 0 <= i < r.len() && 0 <= j < r.len() && i != j implies r[i] != r[j] by {
                if i < rest.len() && j < rest.len() {
                } else if i == rest.len() {
                    assert(r[j] == rest[j]);
                } else {
                    assert(r[i] == rest[i]);
                }
            }
        }
    }
}

/// The microphone chosen at index `i` of the device list, where index 0 is the
/// system default.
pub fn selected_device(devices: &[String], i: i32) -> (r: Option<String>)
    ensures
        r matches Some(d) ==> 0 < i < devices@.len() && d@ == devices@[i as int]@,
        r is None ==> !(0 < i < devices@.len()),
{
    let idx = i as usize;
    if i > 0 && idx < devices.len() {
        let cs = chars_of(devices[idx].as_str());
        Some(string_from_chars(cs.as_slice()))
    } else {
        None
    }
}

/// Whether entry `i` of the device list shows the configured device `current`:
/// the same name, or (after the system-default entry) a name containing it.
pub open spec fn shows_device(devices: Seq<Seq<char>>, i: int, current: Seq<char>) -> bool {
    devices[i] == current || (i > 0 && contains_seq(devices[i], current))
}

/// Index of the configured device in the device list: the first entry that
/// shows it, else 0 (the system default).
pub fn active_device_index(devices: &[String], current: Option<&str>) -> (r: usize)
    ensures
        current is None ==> r == 0,
        current matches Some(c) ==> {
            ||| (r < devices@.len() && shows_device(views(devices@), r as int, c@) && forall|k: int|
                0 <= k < r ==> !shows_device(views(devices@), k, c@))
            ||| (r == 0 && forall|k: int| 0 <= k < devices@.len() ==> !shows_device(views(devices@), k, c@))
        },
{
    match current {
        None => 0,
        Some(c) => {
            let ghost ds = views(devices@);
            let cc = chars_of(c);
            let mut i: usize = 0;
            while i < devices.len()
                invariant
                    i <= devices@.len(),
                    ds == views(devices@),
                    cc@ == c@,
                    current == Some(c),
                    forall|k: int| 0 <= k < i ==> !shows_device(ds, k, c@),
                decreases devices.len() - i,
            {
                let d = chars_of(devices[i].as_str());
                assert(d@ == ds[i as int]);
                if chars_equal(d.as_slice(), cc.as_slice()) || (i > 0 && str_contains(devices[i].as_str(), c)) {
                    return i;
                }
                i = i + 1;
            }
            0
        },
    }
}

/// `format!("{:?}", evdev::Key::new(code))`: the name evdev gives a key code,
/// such as `KEY_RIGHTALT`.
pub uninterp spec fn evdev_key_debug_name(code: u16) -> Seq<char>;

/// Formats `evdev::Key::new(code)` with its `Debug` impl; the result is the named
/// key name of `code`.
#[verifier::external_body]
fn evdev_key_name(code: u16) -> (r: String)
    ensures
        r@ == evdev_key_debug_name(code),
{
    format!("{:?}", evdev::Key::new(code))
}

/// `str::parse::<u16>`: an optional `+` followed by at least one decimal digit,
/// with a value that fits in 16 bits.
pub open spec fn parsed_u16(s: Seq<char>) -> Option<u16> {
    let body = if s.len() > 0 && s[0] == '+' {
        s.drop_first()
    } else {
        s
    };
    if body.len() > 0 && all_digits(body) && digits_value(body) <= u16::MAX {
        Some(digits_value(body) as u16)
    } else {
        None
    }
}

/// Parses a decimal key code the way `str::parse::<u16>` does.
pub fn parse_u16(s: &[char]) -> (r: Option<u16>)
    ensures
        r == parsed_u16(s@),
{
    let start: usize = if s.len() > 0 && s[0] == '+' { 1 } else { 0 };
    let body = vec_from_range(s, start, s.len());
    assert(body@ =~= (if s@.len() > 0 && s@[0] == '+' { s@.drop_first() } else { s@ }));
    if body.len() == 0 {
        return None;
    }
    let mut value: u32 = 0;
    let mut i: usize = 0;
    assert(body@.take(0) =~= Seq::<char>::empty());
    while i < body.len()
        invariant
            i <= body@.len(),
            body@ == (if s@.len() > 0 && s@[0] == '+' { s@.drop_first() } else { s@ }),
            all_digits(body@.take(i as int)),
            value as int == digits_value(body@.take(i as int)),
            value <= u16::MAX,
        decreases body.len() - i,
    {
        let c = body[i];
        assert(body@.take(i + 1).drop_last() =~= body@.take(i as int));
        if c < '0' || c > '9' {
            return None;
        }
        assert(all_digits(body@.take(i + 1))) by {
            assert forall|k: int| 0 <= k < i + 1 implies '0' <= #[trigger] body@.take(i + 1)[k] <= '9' by {
                if k < i {
                    assert(body@.take(i + 1)[k] == body@.take(i as int)[k]);
                }
            }
        }
        let d = (c as u32) - ('0' as u32);
        let next = value * 10 + d;
        if next > 65535 {
            proof {
                if all_digits(body@) {
                    assert(body@.take(body@.len() as int) =~= body@);
                    lemma_digits_value_grows(body@, i + 1, body@.len() as int);
                }
            }
            return None;
        }
        value = next;
        i = i + 1;
    }
    assert(body@.take(body@.len() as int) =~= body@);
    Some(value as u16)
}

/// The key code name searched for: the name uppercased, with a `KEY_` prefix
/// unless it already has one.
pub open spec fn key_search_name(t: Seq<char>) -> Seq<char> {
    let upper = uppercase_of(t);
    if upper.len() >= 4 && upper.take(4) == "KEY_"@ {
        upper
    } else {
        "KEY_"@ + upper
    }
}

/// Resolves a configured hotkey name (`KEY_RIGHTALT`, `rightalt`, `100`, ...) to
/// its key code: a number is taken as the code itself, otherwise the first code
/// below 768 whose evdev name matches.
pub fn parse_evdev_key(name: &str) -> (r: Option<u16>)
    ensures
        ({
            let t = trim_seq(name@);
            match parsed_u16(t) {
                Some(code) => r == Some(code),
                None => match r {
                    Some(code) => code < 768 && evdev_key_debug_name(code) == key_search_name(t)
                        && forall|k: u16| k < code ==> evdev_key_debug_name(k) != key_search_name(t),
                    None => forall|k: u16| k < 768 ==> evdev_key_debug_name(k) != key_search_name(t),
                },
            }
        }),
{
    let cs = chars_of(name);
    let t = trim_chars(cs.as_slice());
    if let Some(code) = parse_u16(t.as_slice()) {
        return Some(code);
    }
    let trimmed = string_from_chars(t.as_slice());
    let upper = str_to_uppercase(trimmed.as_str());
    let uc = chars_of(upper.as_str());
    let prefix = chars_of("KEY_");
    let has_prefix = uc.len() >= 4 && {
        let head = vec_from_range(uc.as_slice(), 0, 4);
        assert(head@ =~= uc@.take(4));
        chars_equal(head.as_slice(), prefix.as_slice())
    };
    let search = if has_prefix {
        uc
    } else {
        let mut v = prefix;
        push_chars(&mut v, uc.as_slice());
        v
    };
    assert(search@ == key_search_name(t@));
    let mut code: u16 = 0;
    while code < 768
        invariant
            code <= 768,
            search@ == key_search_name(t@),
            t@ == trim_seq(name@),
            parsed_u16(t@) is None,
            forall|k: u16| k < code ==> evdev_key_debug_name(k) != search@,
        decreases 768 - code,
    {
        let n = evdev_key_name(code);
        let nc = chars_of(n.as_str());
        if chars_equal(nc.as_slice(), search.as_slice()) {
            return Some(code);
        }
        code = code + 1;
    }
    None
}

} // verus!
