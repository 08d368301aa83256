//! Mapping of typed characters to Linux keyboard keys for direct typing through a
//! uinput virtual keyboard.
use vstd::prelude::*;

use crate::text::{ascii_upper, chars_of};

verus! {

// Linux input event codes (`linux/input-event-codes.h`), the codes of `evdev::Key`.
pub const KEY_1: u16 = 2;
pub const KEY_2: u16 = 3;
pub const KEY_3: u16 = 4;
pub const KEY_4: u16 = 5;
pub const KEY_5: u16 = 6;
pub const KEY_6: u16 = 7;
pub const KEY_7: u16 = 8;
pub const KEY_8: u16 = 9;
pub const KEY_9: u16 = 10;
pub const KEY_0: u16 = 11;
pub const KEY_MINUS: u16 = 12;
pub const KEY_EQUAL: u16 = 13;
pub const KEY_BACKSPACE: u16 = 14;
pub const KEY_TAB: u16 = 15;
pub const KEY_Q: u16 = 16;
pub const KEY_W: u16 = 17;
pub const KEY_E: u16 = 18;
pub const KEY_R: u16 = 19;
pub const KEY_T: u16 = 20;
pub const KEY_Y: u16 = 21;
pub const KEY_U: u16 = 22;
pub const KEY_I: u16 = 23;
pub const KEY_O: u16 = 24;
pub const KEY_P: u16 = 25;
pub const KEY_LEFTBRACE: u16 = 26;
pub const KEY_RIGHTBRACE: u16 = 27;
pub const KEY_ENTER: u16 = 28;
pub const KEY_LEFTCTRL: u16 = 29;
pub const KEY_A: u16 = 30;
pub const KEY_S: u16 = 31;
pub const KEY_D: u16 = 32;
pub const KEY_F: u16 = 33;
pub const KEY_G: u16 = 34;
pub const KEY_H: u16 = 35;
pub const KEY_J: u16 = 36;
pub const KEY_K: u16 = 37;
pub const KEY_L: u16 = 38;
pub const KEY_SEMICOLON: u16 = 39;
pub const KEY_APOSTROPHE: u16 = 40;
pub const KEY_GRAVE: u16 = 41;
pub const KEY_LEFTSHIFT: u16 = 42;
pub const KEY_BACKSLASH: u16 = 43;
pub const KEY_Z: u16 = 44;
pub const KEY_X: u16 = 45;
pub const KEY_C: u16 = 46;
pub const KEY_V: u16 = 47;
pub const KEY_B: u16 = 48;
pub const KEY_N: u16 = 49;
pub const KEY_M: u16 = 50;
pub const KEY_COMMA: u16 = 51;
pub const KEY_DOT: u16 = 52;
pub const KEY_SLASH: u16 = 53;
pub const KEY_SPACE: u16 = 57;
pub const KEY_INSERT: u16 = 110;

/// The key that types `c` on a US layout, and whether Shift must be held; `None`
/// for characters the virtual keyboard cannot type.
pub open spec fn key_for_char(c: char) -> Option<(u16, bool)> {
    match c {
        'a' => Some((KEY_A, false)),
        'b' => Some((KEY_B, false)),
        'c' => Some((KEY_C, false)),
        'd' => Some((KEY_D, false)),
        'e' => Some((KEY_E, false)),
        'f' => Some((KEY_F, false)),
        'g' => Some((KEY_G, false)),
        'h' => Some((KEY_H, false)),
        'i' => Some((KEY_I, false)),
        'j' => Some((KEY_J, false)),
        'k' => Some((KEY_K, false)),
        'l' => Some((KEY_L, false)),
        'm' => Some((KEY_M, false)),
        'n' => Some((KEY_N, false)),
        'o' => Some((KEY_O, false)),
        'p' => Some((KEY_P, false)),
        'q' => Some((KEY_Q, false)),
        'r' => Some((KEY_R, false)),
        's' => Some((KEY_S, false)),
        't' => Some((KEY_T, false)),
        'u' => Some((KEY_U, false)),
        'v' => Some((KEY_V, false)),
        'w' => Some((KEY_W, false)),
        'x' => Some((KEY_X, false)),
        'y' => Some((KEY_Y, false)),
        'z' => Some((KEY_Z, false)),
        'A' => Some((KEY_A, true)),
        'B' => Some((KEY_B, true)),
        'C' => Some((KEY_C, true)),
        'D' => Some((KEY_D, true)),
        'E' => Some((KEY_E, true)),
        'F' => Some((KEY_F, true)),
        'G' => Some((KEY_G, true)),
        'H' => Some((KEY_H, true)),
        'I' => Some((KEY_I, true)),
        'J' => Some((KEY_J, true)),
        'K' => Some((KEY_K, true)),
        'L' => Some((KEY_L, true)),
        'M' => Some((KEY_M, true)),
        'N' => Some((KEY_N, true)),
        'O' => Some((KEY_O, true)),
        'P' => Some((KEY_P, true)),
        'Q' => Some((KEY_Q, true)),
        'R' => Some((KEY_R, true)),
        'S' => Some((KEY_S, true)),
        'T' => Some((KEY_T, true)),
        'U' => Some((KEY_U, true)),
        'V' => Some((KEY_V, true)),
        'W' => Some((KEY_W, true)),
        'X' => Some((KEY_X, true)),
        'Y' => Some((KEY_Y, true)),
        'Z' => Some((KEY_Z, true)),
        '0' => Some((KEY_0, false)),
        '1' => Some((KEY_1, false)),
        '2' => Some((KEY_2, false)),
        '3' => Some((KEY_3, false)),
        '4' => Some((KEY_4, false)),
        '5' => Some((KEY_5, false)),
        '6' => Some((KEY_6, false)),
        '7' => Some((KEY_7, false)),
        '8' => Some((KEY_8, false)),
        '9' => Some((KEY_9, false)),
        ' ' => Some((KEY_SPACE, false)),
        '\t' => Some((KEY_TAB, false)),
        '\n' => Some((KEY_ENTER, false)),
        '\r' => Some((KEY_ENTER, false)),
        '-' => Some((KEY_MINUS, false)),
        '_' => Some((KEY_MINUS, true)),
        '=' => Some((KEY_EQUAL, false)),
        '+' => Some((KEY_EQUAL, true)),
        '[' => Some((KEY_LEFTBRACE, false)),
        '{' => Some((KEY_LEFTBRACE, true)),
        ']' => Some((KEY_RIGHTBRACE, false)),
        '}' => Some((KEY_RIGHTBRACE, true)),
        ';' => Some((KEY_SEMICOLON, false)),
        ':' => Some((KEY_SEMICOLON, true)),
        '\'' => Some((KEY_APOSTROPHE, false)),
        '"' => Some((KEY_APOSTROPHE, true)),
        '`' => Some((KEY_GRAVE, false)),
        '~' => Some((KEY_GRAVE, true)),
        '\\' => Some((KEY_BACKSLASH, false)),
        '|' => Some((KEY_BACKSLASH, true)),
        ',' => Some((KEY_COMMA, false)),
        '<' => Some((KEY_COMMA, true)),
        '.' => Some((KEY_DOT, false)),
        '>' => Some((KEY_DOT, true)),
        '/' => Some((KEY_SLASH, false)),
        '?' => Some((KEY_SLASH, true)),
        '!' => Some((KEY_1, true)),
        '@' => Some((KEY_2, true)),
        '#' => Some((KEY_3, true)),
        '$' => Some((KEY_4, true)),
        '%' => Some((KEY_5, true)),
        '^' => Some((KEY_6, true)),
        '&' => Some((KEY_7, true)),
        '*' => Some((KEY_8, true)),
        '(' => Some((KEY_9, true)),
        ')' => Some((KEY_0, true)),
        _ => None,
    }
}

/// Maps a character to its keyboard key code and whether Shift must be held.
pub fn char_to_evdev_key(c: char) -> (r: Option<(u16, bool)>)
    ensures
        r == key_for_char(c),
{
    match c {
        'a' => Some((KEY_A, false)),
        'b' => Some((KEY_B, false)),
        'c' => Some((KEY_C, false)),
        'd' => Some((KEY_D, false)),
        'e' => Some((KEY_E, false)),
        'f' => Some((KEY_F, false)),
        'g' => Some((KEY_G, false)),
        'h' => Some((KEY_H, false)),
        'i' => Some((KEY_I, false)),
        'j' => Some((KEY_J, false)),
        'k' => Some((KEY_K, false)),
        'l' => Some((KEY_L, false)),
        'm' => Some((KEY_M, false)),
        'n' => Some((KEY_N, false)),
        'o' => Some((KEY_O, false)),
        'p' => Some((KEY_P, false)),
        'q' => Some((KEY_Q, false)),
        'r' => Some((KEY_R, false)),
        's' => Some((KEY_S, false)),
        't' => Some((KEY_T, false)),
        'u' => Some((KEY_U, false)),
        'v' => Some((KEY_V, false)),
        'w' => Some((KEY_W, false)),
        'x' => Some((KEY_X, false)),
        'y' => Some((KEY_Y, false)),
        'z' => Some((KEY_Z, false)),
        'A' => Some((KEY_A, true)),
        'B' => Some((KEY_B, true)),
        'C' => Some((KEY_C, true)),
        'D' => Some((KEY_D, true)),
        'E' => Some((KEY_E, true)),
        'F' => Some((KEY_F, true)),
        'G' => Some((KEY_G, true)),
        'H' => Some((KEY_H, true)),
        'I' => Some((KEY_I, true)),
        'J' => Some((KEY_J, true)),
        'K' => Some((KEY_K, true)),
        'L' => Some((KEY_L, true)),
        'M' => Some((KEY_M, true)),
        'N' => Some((KEY_N, true)),
        'O' => Some((KEY_O, true)),
        'P' => Some((KEY_P, true)),
        'Q' => Some((KEY_Q, true)),
        'R' => Some((KEY_R, true)),
        'S' => Some((KEY_S, true)),
        'T' => Some((KEY_T, true)),
        'U' => Some((KEY_U, true)),
        'V' => Some((KEY_V, true)),
        'W' => Some((KEY_W, true)),
        'X' => Some((KEY_X, true)),
        'Y' => Some((KEY_Y, true)),
        'Z' => Some((KEY_Z, true)),
        '0' => Some((KEY_0, false)),
        '1' => Some((KEY_1, false)),
        '2' => Some((KEY_2, false)),
        '3' => Some((KEY_3, false)),
        '4' => Some((KEY_4, false)),
        '5' => Some((KEY_5, false)),
        '6' => Some((KEY_6, false)),
        '7' => Some((KEY_7, false)),
        '8' => Some((KEY_8, false)),
        '9' => Some((KEY_9, false)),
        ' ' => Some((KEY_SPACE, false)),
        '\t' => Some((KEY_TAB, false)),
        '\n' => Some((KEY_ENTER, false)),
        '\r' => Some((KEY_ENTER, false)),
        '-' => Some((KEY_MINUS, false)),
        '_' => Some((KEY_MINUS, true)),
        '=' => Some((KEY_EQUAL, false)),
        '+' => Some((KEY_EQUAL, true)),
        '[' => Some((KEY_LEFTBRACE, false)),
        '{' => Some((KEY_LEFTBRACE, true)),
        ']' => Some((KEY_RIGHTBRACE, false)),
        '}' => Some((KEY_RIGHTBRACE, true)),
        ';' => Some((KEY_SEMICOLON, false)),
        ':' => Some((KEY_SEMICOLON, true)),
        '\'' => Some((KEY_APOSTROPHE, false)),
        '"' => Some((KEY_APOSTROPHE, true)),
        '`' => Some((KEY_GRAVE, false)),
        '~' => Some((KEY_GRAVE, true)),
        '\\' => Some((KEY_BACKSLASH, false)),
        '|' => Some((KEY_BACKSLASH, true)),
        ',' => Some((KEY_COMMA, false)),
        '<' => Some((KEY_COMMA, true)),
        '.' => Some((KEY_DOT, false)),
        '>' => Some((KEY_DOT, true)),
        '/' => Some((KEY_SLASH, false)),
        '?' => Some((KEY_SLASH, true)),
        '!' => Some((KEY_1, true)),
        '@' => Some((KEY_2, true)),
        '#' => Some((KEY_3, true)),
        '$' => Some((KEY_4, true)),
        '%' => Some((KEY_5, true)),
        '^' => Some((KEY_6, true)),
        '&' => Some((KEY_7, true)),
        '*' => Some((KEY_8, true)),
        '(' => Some((KEY_9, true)),
        ')' => Some((KEY_0, true)),
        _ => None,
    }
}

/// Whether every character of `text` (and there is at least one) can be typed.
pub open spec fn typable(text: Seq<char>) -> bool {
    text.len() > 0 && forall|i: int| 0 <= i < text.len() ==> #[trigger] key_for_char(text[i]) is Some
}

/// Checks whether all characters in `text` can be directly emitted via the
/// virtual keyboard.
pub fn can_type_with_uinput(text: &str) -> (r: bool)
    ensures
        r == typable(text@),
{
    let cs = chars_of(text);
    if cs.len() == 0 {
        return false;
    }
    let mut i: usize = 0;
    while i < cs.len()
        invariant
            i <= cs@.len(),
            cs@ == text@,
            forall|k: int| 0 <= k < i ==> #[trigger] key_for_char(cs@[k]) is Some,
        decreases cs.len() - i,
    {
        if char_to_evdev_key(cs[i]).is_none() {
            return false;
        }
        i = i + 1;
    }
    true
}

/// Key codes the virtual keyboard declares.
pub open spec fn declared_key(k: u16) -> bool {
    KEY_1 <= k <= KEY_SLASH || k == KEY_SPACE || k == KEY_INSERT
}

/// The keys the virtual keyboard is built with: Ctrl, Shift, Insert, Space,
/// Enter, Tab, Backspace, the letters, the digits and the punctuation keys
/// (together every code from `KEY_1` to `KEY_SLASH`, Space and Insert).
pub fn virtual_keyboard_keys() -> (keys: Vec<u16>)
    ensures
        forall|k: u16| keys@.contains(k) <==> declared_key(k),
{
    let mut keys: Vec<u16> = Vec::new();
    let mut k: u16 = KEY_1;
    while k <= KEY_SLASH
        invariant
            KEY_1 <= k <= KEY_SLASH + 1,
            forall|j: u16| keys@.contains(j) <==> KEY_1 <= j < k,
        decreases KEY_SLASH + 1 - k,
    {
        let ghost old_keys = keys@;
        keys.push(k);
        assert forall|j: u16| keys@.contains(j) <==> KEY_1 <= j < k + 1 by {
            if j == k {
                assert(keys@[keys@.len() - 1] == k);
            } else if keys@.contains(j) {
                let i = choose|i: int| 0 <= i < keys@.len() && keys@[i] == j;
                assert(old_keys[i] == j);
                assert(old_keys.contains(j));
            } else if KEY_1 <= j < k {
                assert(old_keys.contains(j));
                let i = choose|i: int| 0 <= i < old_keys.len() && old_keys[i] == j;
                assert(keys@[i] == j);
            }
        }
        k = k + 1;
    }
    let ghost before = keys@;
    keys.push(KEY_SPACE);
    keys.push(KEY_INSERT);
    assert forall|j: u16| keys@.contains(j) <==> declared_key(j) by {
        if keys@.contains(j) && j != KEY_SPACE && j != KEY_INSERT {
            let i = choose|i: int| 0 <= i < keys@.len() && keys@[i] == j;
            assert(before[i] == j);
            assert(before.contains(j));
        }
        if KEY_1 <= j <= KEY_SLASH {
            assert(before.contains(j));
            let i = choose|i: int| 0 <= i < before.len() && before[i] == j;
            assert(keys@[i] == j);
        }
        if j == KEY_SPACE {
            assert(keys@[keys@.len() - 2] == j);
        }
        if j == KEY_INSERT {
            assert(keys@[keys@.len() - 1] == j);
        }
    }
    keys
}

/// Every character that can be typed maps to a key the virtual keyboard
/// declares, and so do the Shift and Ctrl+V keys used for typing and pasting.
pub proof fn lemma_typed_keys_declared(c: char)
    ensures
        key_for_char(c) matches Some((k, _)) ==> declared_key(k),
        declared_key(KEY_LEFTSHIFT),
        declared_key(KEY_LEFTCTRL),
        declared_key(KEY_V),
{
}


/// The character Shift turns a key's unshifted character into on a US
/// keyboard: the capital of a letter, and the symbol printed above a digit or
/// punctuation key.
pub open spec fn us_shifted(c: char) -> Option<char> {
    if 'a' <= c && c <= 'z' {
        Some(ascii_upper(c))
    } else {
        match c {
            '1' => Some('!'),
            '2' => Some('@'),
            '3' => Some('#'),
            '4' => Some('$'),
            '5' => Some('%'),
            '6' => Some('^'),
            '7' => Some('&'),
            '8' => Some('*'),
            '9' => Some('('),
            '0' => Some(')'),
            '-' => Some('_'),
            '=' => Some('+'),
            '[' => Some('{'),
            ']' => Some('}'),
            ';' => Some(':'),
            '\'' => Some('"'),
            '`' => Some('~'),
            '\\' => Some('|'),
            ',' => Some('<'),
            '.' => Some('>'),
            '/' => Some('?'),
            _ => None,
        }
    }
}

/// The rows of a US keyboard, left to right, with the code of each row's
/// first key: Linux numbers the keys of a row consecutively.
pub open spec fn us_key_rows() -> Seq<(Seq<char>, u16)> {
    seq![
        (seq!['1', '2', '3', '4', '5', '6', '7', '8', '9', '0', '-', '='], KEY_1),
        (seq!['q', 'w', 'e', 'r', 't', 'y', 'u', 'i', 'o', 'p', '[', ']'], KEY_Q),
        (seq!['a', 's', 'd', 'f', 'g', 'h', 'j', 'k', 'l', ';', '\'', '`'], KEY_A),
        (seq!['\\', 'z', 'x', 'c', 'v', 'b', 'n', 'm', ',', '.', '/'], KEY_BACKSLASH),
    ]
}

proof fn lemma_row_keys(r: int, i: int)
    requires
        0 <= r < us_key_rows().len(),
        0 <= i < us_key_rows()[r].0.len(),
    ensures
        key_for_char(us_key_rows()[r].0[i]) == Some(((us_key_rows()[r].1 + i) as u16, false)),
{
    let row = us_key_rows()[r].0;
    if r == 0 {
        if i < 6 {
            if i == 0 {} else if i == 1 {} else if i == 2 {} else if i == 3 {} else if i == 4 {} else {}
        } else {
            if i == 6 {} else if i == 7 {} else if i == 8 {} else if i == 9 {} else if i == 10 {} else {}
        }
    } else if r == 1 {
        if i < 6 {
            if i == 0 {} else if i == 1 {} else if i == 2 {} else if i == 3 {} else if i == 4 {} else {}
        } else {
            if i == 6 {} else if i == 7 {} else if i == 8 {} else if i == 9 {} else if i == 10 {} else {}
        }
    } else if r == 2 {
        if i < 6 {
            if i == 0 {} else if i == 1 {} else if i == 2 {} else if i == 3 {} else if i == 4 {} else {}
        } else {
            if i == 6 {} else if i == 7 {} else if i == 8 {} else if i == 9 {} else if i == 10 {} else {}
        }
    } else {
        if i < 6 {
            if i == 0 {} else if i == 1 {} else if i == 2 {} else if i == 3 {} else if i == 4 {} else {}
        } else {
            if i == 6 {} else if i == 7 {} else if i == 8 {} else if i == 9 {} else {}
        }
    }
}

/// Typing follows a US keyboard. Each character on a key row is typed by its
/// own key, numbered by its place in the row, without Shift; the character
/// Shift gives on that key is typed by the same key with Shift held; space,
/// tab and both line ends are typed by their keys without Shift; and every
/// printable ASCII character can be typed, while nothing else can.
pub proof fn lemma_typing_follows_us_layout(c: char)
    ensures
        forall|r: int, i: int|
            0 <= r < us_key_rows().len() && 0 <= i < us_key_rows()[r].0.len() ==> key_for_char(
                #[trigger] us_key_rows()[r].0[i],
            ) == Some(((us_key_rows()[r].1 + i) as u16, false)),
        us_shifted(c) matches Some(u) ==> (key_for_char(c) matches Some((k, shift)) && !shift && key_for_char(u)
            == Some((k, true))),
        key_for_char(' ') == Some((KEY_SPACE, false)),
        key_for_char('\t') == Some((KEY_TAB, false)),
        key_for_char('\n') == Some((KEY_ENTER, false)),
        key_for_char('\r') == Some((KEY_ENTER, false)),
        (0x20 <= (c as u32) && (c as u32) <= 0x7E) ==> key_for_char(c) is Some,
        key_for_char(c) is Some <==> ((0x20 <= (c as u32) && (c as u32) <= 0x7E) || c == '\t' || c == '\n' || c
            == '\r'),
{
    assert forall|r: int, i: int|
        0 <= r < us_key_rows().len() && 0 <= i < us_key_rows()[r].0.len() implies key_for_char(
        #[trigger] us_key_rows()[r].0[i],
    ) == Some(((us_key_rows()[r].1 + i) as u16, false)) by {
        lemma_row_keys(r, i);
    }
}

/// Key press value of an input event.
pub const KEY_DOWN: i32 = 1;

/// Key release value of an input event.
pub const KEY_UP: i32 = 0;

/// The key events that type `c`: Shift held around the key where needed;
/// nothing for a character without a key.
pub open spec fn char_events(c: char) -> Seq<(u16, i32)> {
    match key_for_char(c) {
        Some((k, shift)) => if shift {
            seq![(KEY_LEFTSHIFT, 1i32), (k, 1i32), (k, 0i32), (KEY_LEFTSHIFT, 0i32)]
        } else {
            seq![(k, 1i32), (k, 0i32)]
        },
        None => Seq::empty(),
    }
}

/// The key events for the characters of `s`, one after another.
pub open spec fn chars_events(s: Seq<char>) -> Seq<(u16, i32)>
    decreases s.len(),
{
    if s.len() == 0 {
        Seq::empty()
    } else {
        chars_events(s.drop_last()) + char_events(s.last())
    }
}

/// The key events that type `text` on the virtual keyboard, ending with a
/// Shift release so that no modifier stays held.
pub open spec fn typing_events(text: Seq<char>) -> Seq<(u16, i32)> {
    chars_events(text).push((KEY_LEFTSHIFT, 0i32))
}

/// The key events that type `text` (see `typing_events`).
pub fn keystrokes_for_text(text: &str) -> (r: Vec<(u16, i32)>)
    ensures
        r@ == typing_events(text@),
{
    let cs = chars_of(text);
    let mut out: Vec<(u16, i32)> = Vec::new();
    let mut i: usize = 0;
    while i < cs.len()
        invariant
            cs@ == text@,
            i <= cs@.len(),
            out@ == chars_events(cs@.take(i as int)),
        decreases cs.len() - i,
    {
        let c = cs[i];
        assert(cs@.take(i + 1).drop_last() =~= cs@.take(i as int));
        assert(cs@.take(i + 1).last() == c);
        let ghost before = out@;
        match char_to_evdev_key(c) {
            Some((k, shift)) => {
                if shift {
                    out.push((KEY_LEFTSHIFT, KEY_DOWN));
                }
                out.push((k, KEY_DOWN));
                out.push((k, KEY_UP));
                if shift {
                    out.push((KEY_LEFTSHIFT, KEY_UP));
                }
            },
            None => {},
        }
        assert(out@ =~= before + char_events(c));
        i = i + 1;
    }
    assert(cs@.take(cs@.len() as int) =~= cs@);
    out.push((KEY_LEFTSHIFT, KEY_UP));
    out
}

/// The key events of the paste shortcut: Ctrl and V down, then V and Ctrl up.
pub open spec fn paste_shortcut() -> (Seq<(u16, i32)>, Seq<(u16, i32)>) {
    (seq![(KEY_LEFTCTRL, 1i32), (KEY_V, 1i32)], seq![(KEY_V, 0i32), (KEY_LEFTCTRL, 0i32)])
}

/// The key events of the paste shortcut, as the press and the release batch.
pub fn paste_keystrokes() -> (r: (Vec<(u16, i32)>, Vec<(u16, i32)>))
    ensures
        (r.0@, r.1@) == paste_shortcut(),
{
    let mut down: Vec<(u16, i32)> = Vec::new();
    down.push((KEY_LEFTCTRL, KEY_DOWN));
    down.push((KEY_V, KEY_DOWN));
    let mut up: Vec<(u16, i32)> = Vec::new();
    up.push((KEY_V, KEY_UP));
    up.push((KEY_LEFTCTRL, KEY_UP));
    assert(down@ =~= paste_shortcut().0);
    assert(up@ =~= paste_shortcut().1);
    (down, up)
}

/// Every key that typing presses was declared on the virtual keyboard.
pub proof fn lemma_typing_uses_declared_keys(text: Seq<char>)
    ensures
        forall|i: int| 0 <= i < typing_events(text).len() ==> declared_key(#[trigger] typing_events(text)[i].0),
    decreases text.len(),
{
    if text.len() > 0 {
        lemma_typing_uses_declared_keys(text.drop_last());
        lemma_typed_keys_declared(text.last());
        let prev = chars_events(text.drop_last());
        assert forall|i: int| 0 <= i < chars_events(text).len() implies declared_key(#[trigger] chars_events(text)[i].0) by {
            if i < prev.len() {
                assert(chars_events(text)[i] == prev[i]);
                assert(typing_events(text.drop_last())[i] == prev[i]);
            } else {
                let ce = char_events(text.last());
                assert(chars_events(text)[i] == ce[i - prev.len()]);
                assert(forall|j: int| 0 <= j < ce.len() ==> declared_key(#[trigger] ce[j].0));
            }
        }
    }
    assert forall|i: int| 0 <= i < typing_events(text).len() implies declared_key(#[trigger] typing_events(text)[i].0) by {
        if i < chars_events(text).len() {
            assert(typing_events(text)[i] == chars_events(text)[i]);
        }
    }
}

} // verus!
