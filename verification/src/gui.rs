//! The settings panel's fields: how the settings are shown in them, how the
//! fields are read back into settings, and that reading back what was shown
//! gives the same settings.
use vstd::prelude::*;

use crate::config::{active_device_index, at_least, clean_vocabulary_list, edited_vocabulary,
    formatting_mode_at, formatting_mode_from_index, formatting_mode_index, formatting_mode_slot,
    hud_position_at, hud_position_from_index, hud_position_index, hud_position_slot, lemma_selector_round_trip,
    optional_field, output_mode_at, output_mode_from_index, output_mode_index, output_mode_slot,
    selected_device, shows_device, HudPosition, OutputMode};
use crate::text::{ascii_lower, chars_of, opt_string_view, string_from_chars, trim_chars, trim_seq, views};
use crate::transcribe::formatting::FormattingMode;

verus! {

/// The settings that the panel edits (the two volume-like sliders are kept
/// apart, with the other floating-point settings).
pub struct Settings {
    pub server_url: String,
    pub model: String,
    pub api_key: Option<String>,
    pub language: Option<String>,
    pub prompt: Option<String>,
    pub audio_device: Option<String>,
    pub noise_suppression: bool,
    pub save_audio_dir: Option<String>,
    pub evdev_hotkey_enabled: bool,
    pub evdev_hotkey: String,
    pub ptt_threshold_ms: u64,
    pub output_mode: OutputMode,
    pub paste_delay_ms: u64,
    pub restore_clipboard: bool,
    pub sound_feedback: bool,
    pub show_notifications: bool,
    pub hud_enabled: bool,
    pub hud_position: HudPosition,
    pub vad_enabled: bool,
    pub vad_silence_timeout_ms: u64,
    pub formatting_mode: FormattingMode,
    pub trailing_space: bool,
    pub vocabulary: Vec<String>,
}

/// The panel's fields.
pub struct SettingsForm {
    pub server_url: String,
    pub model_name: String,
    pub api_key: String,
    pub language: String,
    pub prompt_text: String,
    pub evdev_enabled: bool,
    pub evdev_key: String,
    pub ptt_threshold: i32,
    pub output_mode_index: i32,
    pub paste_delay: i32,
    pub restore_clipboard: bool,
    pub audio_device_index: i32,
    pub noise_suppression: bool,
    pub save_audio_dir: String,
    pub sound_enabled: bool,
    pub notifications_enabled: bool,
    pub hud_enabled: bool,
    pub hud_position_index: i32,
    pub vad_enabled: bool,
    pub vad_silence_timeout: i32,
    pub formatting_mode_index: i32,
    pub trailing_space: bool,
    pub vocabulary: Vec<String>,
}

/// The settings as values.
pub struct SettingsView {
    pub server_url: Seq<char>,
    pub model: Seq<char>,
    pub api_key: Option<Seq<char>>,
    pub language: Option<Seq<char>>,
    pub prompt: Option<Seq<char>>,
    pub audio_device: Option<Seq<char>>,
    pub noise_suppression: bool,
    pub save_audio_dir: Option<Seq<char>>,
    pub evdev_hotkey_enabled: bool,
    pub evdev_hotkey: Seq<char>,
    pub ptt_threshold_ms: u64,
    pub output_mode: OutputMode,
    pub paste_delay_ms: u64,
    pub restore_clipboard: bool,
    pub sound_feedback: bool,
    pub show_notifications: bool,
    pub hud_enabled: bool,
    pub hud_position: HudPosition,
    pub vad_enabled: bool,
    pub vad_silence_timeout_ms: u64,
    pub formatting_mode: FormattingMode,
    pub trailing_space: bool,
    pub vocabulary: Seq<Seq<char>>,
}

/// The panel's fields as values.
pub struct FormView {
    pub server_url: Seq<char>,
    pub model_name: Seq<char>,
    pub api_key: Seq<char>,
    pub language: Seq<char>,
    pub prompt_text: Seq<char>,
    pub evdev_enabled: bool,
    pub evdev_key: Seq<char>,
    pub ptt_threshold: i32,
    pub output_mode_index: i32,
    pub paste_delay: i32,
    pub restore_clipboard: bool,
    pub audio_device_index: i32,
    pub noise_suppression: bool,
    pub save_audio_dir: Seq<char>,
    pub sound_enabled: bool,
    pub notifications_enabled: bool,
    pub hud_enabled: bool,
    pub hud_position_index: i32,
    pub vad_enabled: bool,
    pub vad_silence_timeout: i32,
    pub formatting_mode_index: i32,
    pub trailing_space: bool,
    pub vocabulary: Seq<Seq<char>>,
}

impl View for Settings {
    type V = SettingsView;

    open spec fn view(&self) -> SettingsView {
        SettingsView {
            server_url: self.server_url@,
            model: self.model@,
            api_key: opt_string_view(self.api_key),
            language: opt_string_view(self.language),
            prompt: opt_string_view(self.prompt),
            audio_device: opt_string_view(self.audio_device),
            noise_suppression: self.noise_suppression,
            save_audio_dir: opt_string_view(self.save_audio_dir),
            evdev_hotkey_enabled: self.evdev_hotkey_enabled,
            evdev_hotkey: self.evdev_hotkey@,
            ptt_threshold_ms: self.ptt_threshold_ms,
            output_mode: self.output_mode,
            paste_delay_ms: self.paste_delay_ms,
            restore_clipboard: self.restore_clipboard,
            sound_feedback: self.sound_feedback,
            show_notifications: self.show_notifications,
            hud_enabled: self.hud_enabled,
            hud_position: self.hud_position,
            vad_enabled: self.vad_enabled,
            vad_silence_timeout_ms: self.vad_silence_timeout_ms,
            formatting_mode: self.formatting_mode,
            trailing_space: self.trailing_space,
            vocabulary: views(self.vocabulary@),
        }
    }
}

impl View for SettingsForm {
    type V = FormView;

    open spec fn view(&self) -> FormView {
        FormView {
            server_url: self.server_url@,
            model_name: self.model_name@,
            api_key: self.api_key@,
            language: self.language@,
            prompt_text: self.prompt_text@,
            evdev_enabled: self.evdev_enabled,
            evdev_key: self.evdev_key@,
            ptt_threshold: self.ptt_threshold,
            output_mode_index: self.output_mode_index,
            paste_delay: self.paste_delay,
            restore_clipboard: self.restore_clipboard,
            audio_device_index: self.audio_device_index,
            noise_suppression: self.noise_suppression,
            save_audio_dir: self.save_audio_dir@,
            sound_enabled: self.sound_enabled,
            notifications_enabled: self.notifications_enabled,
            hud_enabled: self.hud_enabled,
            hud_position_index: self.hud_position_index,
            vad_enabled: self.vad_enabled,
            vad_silence_timeout: self.vad_silence_timeout,
            formatting_mode_index: self.formatting_mode_index,
            trailing_space: self.trailing_space,
            vocabulary: views(self.vocabulary@),
        }
    }
}

/// An optional text shown in a field: the text, or an empty field.
pub open spec fn or_empty(o: Option<Seq<char>>) -> Seq<char> {
    match o {
        Some(s) => s,
        None => Seq::empty(),
    }
}

/// An optional setting read from a field: the trimmed text, or nothing when
/// the field is blank.
pub open spec fn field_option(s: Seq<char>) -> Option<Seq<char>> {
    if trim_seq(s).len() > 0 {
        Some(trim_seq(s))
    } else {
        None
    }
}

/// A number field read as a setting with a lower bound (`(v as u64).max(min)`).
pub open spec fn bounded(v: i32, min: u64) -> u64 {
    if (v as u64) < min {
        min
    } else {
        v as u64
    }
}

/// Whether entry `k` is the first entry of the device list that shows `c`.
pub open spec fn first_showing(devices: Seq<Seq<char>>, c: Seq<char>, k: int) -> bool {
    &&& 0 <= k < devices.len()
    &&& shows_device(devices, k, c)
    &&& forall|j: int| 0 <= j < k ==> !shows_device(devices, j, c)
}

/// The device list entry selected for the configured device: the first entry
/// that shows it, else the system default at 0.
pub open spec fn device_slot(devices: Seq<Seq<char>>, current: Option<Seq<char>>) -> int {
    match current {
        None => 0,
        Some(c) => if exists|k: int| first_showing(devices, c, k) {
            choose|k: int| first_showing(devices, c, k)
        } else {
            0
        },
    }
}

/// The device chosen at entry `i` of the list, where entry 0 is the system
/// default.
pub open spec fn device_at(devices: Seq<Seq<char>>, i: i32) -> Option<Seq<char>> {
    if 0 < i < devices.len() {
        Some(devices[i as int])
    } else {
        None
    }
}

/// The panel's fields for the settings `s`, with the device list `devices`.
pub open spec fn form_of(s: SettingsView, devices: Seq<Seq<char>>) -> FormView {
    FormView {
        server_url: s.server_url,
        model_name: s.model,
        api_key: or_empty(s.api_key),
        language: or_empty(s.language),
        prompt_text: or_empty(s.prompt),
        evdev_enabled: s.evdev_hotkey_enabled,
        evdev_key: s.evdev_hotkey,
        ptt_threshold: s.ptt_threshold_ms as i32,
        output_mode_index: output_mode_slot(s.output_mode),
        paste_delay: s.paste_delay_ms as i32,
        restore_clipboard: s.restore_clipboard,
        audio_device_index: device_slot(devices, s.audio_device) as i32,
        noise_suppression: s.noise_suppression,
        save_audio_dir: or_empty(s.save_audio_dir),
        sound_enabled: s.sound_feedback,
        notifications_enabled: s.show_notifications,
        hud_enabled: s.hud_enabled,
        hud_position_index: hud_position_slot(s.hud_position),
        vad_enabled: s.vad_enabled,
        vad_silence_timeout: s.vad_silence_timeout_ms as i32,
        formatting_mode_index: formatting_mode_slot(s.formatting_mode),
        trailing_space: s.trailing_space,
        vocabulary: s.vocabulary,
    }
}

/// The settings read from the panel's fields: texts trimmed, blank optional
/// fields unset, numbers raised to their minimums (push-to-talk 50 ms, paste
/// delay 5 ms, silence timeout 100 ms), selectors mapped back, the vocabulary
/// cleaned.
pub open spec fn settings_of(f: FormView, devices: Seq<Seq<char>>) -> SettingsView {
    SettingsView {
        server_url: trim_seq(f.server_url),
        model: trim_seq(f.model_name),
        api_key: field_option(f.api_key),
        language: field_option(f.language),
        prompt: field_option(f.prompt_text),
        audio_device: device_at(devices, f.audio_device_index),
        noise_suppression: f.noise_suppression,
        save_audio_dir: field_option(f.save_audio_dir),
        evdev_hotkey_enabled: f.evdev_enabled,
        evdev_hotkey: trim_seq(f.evdev_key),
        ptt_threshold_ms: bounded(f.ptt_threshold, 50),
        output_mode: output_mode_at(f.output_mode_index),
        paste_delay_ms: bounded(f.paste_delay, 5),
        restore_clipboard: f.restore_clipboard,
        sound_feedback: f.sound_enabled,
        show_notifications: f.notifications_enabled,
        hud_enabled: f.hud_enabled,
        hud_position: hud_position_at(f.hud_position_index),
        vad_enabled: f.vad_enabled,
        vad_silence_timeout_ms: bounded(f.vad_silence_timeout, 100),
        formatting_mode: formatting_mode_at(f.formatting_mode_index),
        trailing_space: f.trailing_space,
        vocabulary: edited_vocabulary(f.vocabulary),
    }
}

fn text_or_empty(o: &Option<String>) -> (r: String)
    ensures
        r@ == or_empty(opt_string_view(*o)),
{
    match o {
        Some(s) => s.clone(),
        None => String::new(),
    }
}

fn trimmed(s: &str) -> (r: String)
    ensures
        r@ == trim_seq(s@),
{
    let cs = chars_of(s);
    string_from_chars(trim_chars(cs.as_slice()).as_slice())
}

fn copy_strings(v: &Vec<String>) -> (r: Vec<String>)
    ensures
        views(r@) == views(v@),
{
    let mut out: Vec<String> = Vec::new();
    let mut i: usize = 0;
    while i < v.len()
        invariant
            i <= v@.len(),
            views(out@) == views(v@).take(i as int),
        decreases v.len() - i,
    {
        let ghost before = out@;
        let c = v[i].clone();
        assert(c@ == v@[i as int]@);
        out.push(c);
        assert(views(out@) =~= views(before).push(v@[i as int]@));
        assert(views(out@) =~= views(v@).take(i + 1));
        i = i + 1;
    }
    assert(views(v@).take(v@.len() as int) =~= views(v@));
    out
}

proof fn lemma_first_showing_unique(ds: Seq<Seq<char>>, c: Seq<char>, a: int, b: int)
    requires
        first_showing(ds, c, a),
        first_showing(ds, c, b),
    ensures
        a == b,
{
    if a < b {
        assert(!shows_device(ds, a, c));
    } else if b < a {
        assert(!shows_device(ds, b, c));
    }
}

/// The list entry selected for the configured device (see `device_slot`).
fn device_index(devices: &[String], current: Option<&str>) -> (r: usize)
    ensures
        r as int == device_slot(
            views(devices@),
            match current {
                Some(c) => Some(c@),
                None => None,
            },
        ),
{
    let r = active_device_index(devices, current);
    proof {
        let ds = views(devices@);
        if let Some(c) = current {
            if r < devices@.len() && shows_device(ds, r as int, c@) && forall|k: int|
                0 <= k < r ==> !shows_device(ds, k, c@) {
                assert(first_showing(ds, c@, r as int));
                let k = choose|k: int| first_showing(ds, c@, k);
                lemma_first_showing_unique(ds, c@, k, r as int);
                assert(device_slot(ds, Some(c@)) == r as int);
            } else {
                assert forall|k: int| !first_showing(ds, c@, k) by {
                    if 0 <= k < ds.len() {
                        assert(!shows_device(ds, k, c@));
                    }
                }
                assert(device_slot(ds, Some(c@)) == 0);
            }
        }
    }
    r
}

/// Shows the settings in the panel's fields, the device list being `devices`
/// (the system default first).
pub fn config_to_ui(s: &Settings, devices: &[String]) -> (f: SettingsForm)
    ensures
        f@ == form_of(s@, views(devices@)),
{
    let current: Option<&str> = match &s.audio_device {
        Some(d) => Some(d.as_str()),
        None => None,
    };
    let idx = device_index(devices, current);
    SettingsForm {
        server_url: s.server_url.clone(),
        model_name: s.model.clone(),
        api_key: text_or_empty(&s.api_key),
        language: text_or_empty(&s.language),
        prompt_text: text_or_empty(&s.prompt),
        evdev_enabled: s.evdev_hotkey_enabled,
        evdev_key: s.evdev_hotkey.clone(),
        ptt_threshold: s.ptt_threshold_ms as i32,
        output_mode_index: output_mode_index(s.output_mode),
        paste_delay: s.paste_delay_ms as i32,
        restore_clipboard: s.restore_clipboard,
        audio_device_index: idx as i32,
        noise_suppression: s.noise_suppression,
        save_audio_dir: text_or_empty(&s.save_audio_dir),
        sound_enabled: s.sound_feedback,
        notifications_enabled: s.show_notifications,
        hud_enabled: s.hud_enabled,
        hud_position_index: hud_position_index(s.hud_position),
        vad_enabled: s.vad_enabled,
        vad_silence_timeout: s.vad_silence_timeout_ms as i32,
        formatting_mode_index: formatting_mode_index(s.formatting_mode),
        trailing_space: s.trailing_space,
        vocabulary: copy_strings(&s.vocabulary),
    }
}

/// Reads the settings back from the panel's fields, the device list being
/// `devices` (see `settings_of`).
pub fn ui_to_config(f: &SettingsForm, devices: &[String]) -> (s: Settings)
    ensures
        s@ == settings_of(f@, views(devices@)),
{
    let audio_device = selected_device(devices, f.audio_device_index);
    Settings {
        server_url: trimmed(f.server_url.as_str()),
        model: trimmed(f.model_name.as_str()),
        api_key: optional_field(f.api_key.as_str()),
        language: optional_field(f.language.as_str()),
        prompt: optional_field(f.prompt_text.as_str()),
        audio_device,
        noise_suppression: f.noise_suppression,
        save_audio_dir: optional_field(f.save_audio_dir.as_str()),
        evdev_hotkey_enabled: f.evdev_enabled,
        evdev_hotkey: trimmed(f.evdev_key.as_str()),
        ptt_threshold_ms: at_least(f.ptt_threshold, 50),
        output_mode: output_mode_from_index(f.output_mode_index),
        paste_delay_ms: at_least(f.paste_delay, 5),
        restore_clipboard: f.restore_clipboard,
        sound_feedback: f.sound_enabled,
        show_notifications: f.notifications_enabled,
        hud_enabled: f.hud_enabled,
        hud_position: hud_position_from_index(f.hud_position_index),
        vad_enabled: f.vad_enabled,
        vad_silence_timeout_ms: at_least(f.vad_silence_timeout, 100),
        formatting_mode: formatting_mode_from_index(f.formatting_mode_index),
        trailing_space: f.trailing_space,
        vocabulary: clean_vocabulary_list(f.vocabulary.as_slice()),
    }
}

/// Whether an optional text setting is as the panel saves it: unset, or
/// trimmed and not empty.
pub open spec fn clean_option(o: Option<Seq<char>>) -> bool {
    match o {
        Some(s) => s.len() > 0 && trim_seq(s) == s,
        None => true,
    }
}

/// Whether the settings are as the panel saves them: texts trimmed, optional
/// texts unset or trimmed and not empty, numbers at or above their minimums
/// and within the fields' range, the microphone one that the device list
/// offers, the vocabulary clean.
pub open spec fn as_saved(s: SettingsView, devices: Seq<Seq<char>>) -> bool {
    &&& trim_seq(s.server_url) == s.server_url
    &&& trim_seq(s.model) == s.model
    &&& trim_seq(s.evdev_hotkey) == s.evdev_hotkey
    &&& clean_option(s.api_key)
    &&& clean_option(s.language)
    &&& clean_option(s.prompt)
    &&& clean_option(s.save_audio_dir)
    &&& 50 <= s.ptt_threshold_ms <= i32::MAX
    &&& 5 <= s.paste_delay_ms <= i32::MAX
    &&& 100 <= s.vad_silence_timeout_ms <= i32::MAX
    &&& devices.len() <= i32::MAX
    &&& match s.audio_device {
        Some(d) => 0 < device_slot(devices, Some(d)) && devices[device_slot(devices, Some(d))] == d,
        None => true,
    }
    &&& edited_vocabulary(s.vocabulary) == s.vocabulary
}

proof fn lemma_field_round_trip(o: Option<Seq<char>>)
    requires
        clean_option(o),
    ensures
        field_option(or_empty(o)) == o,
{
    if o is None {
        assert(trim_seq(Seq::<char>::empty()).len() == 0) by {
            reveal_with_fuel(crate::text::trim_start_seq, 2);
        }
    }
}

proof fn lemma_bounded_round_trip(v: u64, min: u64)
    requires
        min <= v <= i32::MAX,
    ensures
        bounded(v as i32, min) == v,
{
}

/// Saving the panel unchanged keeps the settings it was showing: reading back
/// the fields that show settings (as the panel saves them) gives those
/// settings.
pub proof fn lemma_panel_round_trip(s: SettingsView, devices: Seq<Seq<char>>)
    requires
        as_saved(s, devices),
    ensures
        settings_of(form_of(s, devices), devices) == s,
{
    lemma_field_round_trip(s.api_key);
    lemma_field_round_trip(s.language);
    lemma_field_round_trip(s.prompt);
    lemma_field_round_trip(s.save_audio_dir);
    lemma_bounded_round_trip(s.ptt_threshold_ms, 50);
    lemma_bounded_round_trip(s.paste_delay_ms, 5);
    lemma_bounded_round_trip(s.vad_silence_timeout_ms, 100);
    lemma_selector_round_trip(s.output_mode, s.hud_position, s.formatting_mode);
    let f = form_of(s, devices);
    match s.audio_device {
        Some(d) => {
            let k = device_slot(devices, Some(d));
            assert(0 < k < devices.len()) by {
                if exists|j: int| first_showing(devices, d, j) {
                } else {
                    assert(k == 0);
                }
            }
            assert(f.audio_device_index == k as i32);
            assert(device_at(devices, f.audio_device_index) == Some(d));
        },
        None => {
            assert(f.audio_device_index == 0);
        },
    }
    assert(settings_of(f, devices) == s);
}

/// Whether two texts are equal when ASCII letters are compared without case
/// (`str::eq_ignore_ascii_case`; other characters must match exactly).
pub open spec fn same_ignoring_ascii_case(a: Seq<char>, b: Seq<char>) -> bool {
    a.len() == b.len() && forall|i: int| 0 <= i < a.len() ==> ascii_lower(#[trigger] a[i]) == ascii_lower(b[i])
}

/// The vocabulary list after the panel's add-word button: the word trimmed is
/// appended unless it is empty or already listed, ignoring ASCII case.
pub open spec fn vocabulary_with_word(words: Seq<Seq<char>>, word: Seq<char>) -> Seq<Seq<char>> {
    let t = trim_seq(word);
    if t.len() > 0 && !(exists|i: int| 0 <= i < words.len() && same_ignoring_ascii_case(#[trigger] words[i], t)) {
        words.push(t)
    } else {
        words
    }
}

fn lower_code(c: char) -> (r: u32)
    ensures
        r == ascii_lower(c) as u32,
{
    let x = c as u32;
    if 65 <= x && x <= 90 {
        assert(ascii_lower(c) as u32 == x + 32);
        x + 32
    } else {
        assert('A' as u32 == 65 && 'Z' as u32 == 90);
        x
    }
}

fn same_ignoring_case(a: &[char], b: &[char]) -> (r: bool)
    ensures
        r == same_ignoring_ascii_case(a@, b@),
{
    if a.len() != b.len() {
        return false;
    }
    let mut i: usize = 0;
    while i < a.len()
        invariant
            a@.len() == b@.len(),
            i <= a@.len(),
            forall|k: int| 0 <= k < i ==> ascii_lower(#[trigger] a@[k]) == ascii_lower(b@[k]),
        decreases a.len() - i,
    {
        let la = lower_code(a[i]);
        let lb = lower_code(b[i]);
        if la != lb {
            assert(ascii_lower(a@[i as int]) != ascii_lower(b@[i as int]));
            return false;
        }
        assert(ascii_lower(a@[i as int]) as u32 == ascii_lower(b@[i as int]) as u32);
        i = i + 1;
    }
    true
}

/// The panel's add-word button: appends the trimmed word unless it is empty
/// or already listed, ignoring ASCII case (see `vocabulary_with_word`).
pub fn add_vocabulary_word(words: &mut Vec<String>, word: &str)
    ensures
        views(final(words)@) == vocabulary_with_word(views(old(words)@), word@),
{
    let ghost vs = views(words@);
    let cs = chars_of(word);
    let t = trim_chars(cs.as_slice());
    if t.len() == 0 {
        return;
    }
    let mut i: usize = 0;
    while i < words.len()
        invariant
            i <= words@.len(),
            vs == views(words@),
            vs.len() == words@.len(),
            t@ == trim_seq(word@),
            forall|k: int| 0 <= k < i ==> !same_ignoring_ascii_case(#[trigger] vs[k], t@),
        decreases words.len() - i,
    {
        let w = chars_of(words[i].as_str());
        assert(vs[i as int] == words@[i as int]@);
        if same_ignoring_case(w.as_slice(), t.as_slice()) {
            assert(same_ignoring_ascii_case(vs[i as int], t@));
            return;
        }
        i = i + 1;
    }
    let s = string_from_chars(t.as_slice());
    words.push(s);
    assert(views(words@) =~= vs.push(t@));
}

/// The panel's remove-word button: removes the word at `idx` when there is
/// one.
pub fn remove_vocabulary_word(words: &mut Vec<String>, idx: i32)
    ensures
        final(words)@ == (if 0 <= idx < old(words)@.len() {
            old(words)@.remove(idx as int)
        } else {
            old(words)@
        }),
{
    if idx >= 0 && (idx as usize) < words.len() {
        words.remove(idx as usize);
    }
}

} // verus!
