//! Decisions of the dictation daemon's event loop: which hotkey engine event a
//! command is, and how a failed transcription is reported to the user.
use vstd::prelude::*;
use vstd::string::StringExecFns;

use crate::hotkey::ipc::IpcCommand;
use crate::hotkey::state::{
    cancel_step, is_recording_state, press_step, release_step, toggle_step, Action, HotkeyEngine, ModeState,
};
use crate::audio::feedback::EarconType;
use crate::text::{cat2, chars_equal, chars_of, contains_seq, push_str, str_contains, string_from_chars};

verus! {

/// How the hotkey engine answers a command in mode `s`: key down is a press,
/// key up a release after `held_ms` milliseconds, toggle and cancel their own
/// steps; any other command leaves the engine as it is and asks for nothing.
pub open spec fn engine_response(cmd: IpcCommand, s: ModeState, held_ms: int, threshold_ms: int) -> (ModeState, Action) {
    match cmd {
        IpcCommand::PttDown => press_step(s),
        IpcCommand::PttUp => release_step(s, held_ms, threshold_ms),
        IpcCommand::Toggle => toggle_step(s),
        IpcCommand::Cancel => cancel_step(s),
        _ => (s, Action::NoAction),
    }
}

/// Feeds a command to the hotkey engine and returns the action the daemon must
/// perform. Commands that are not hotkey events leave the engine unchanged.
pub fn dispatch_command(engine: &mut HotkeyEngine, cmd: IpcCommand) -> (a: Action)
    ensures
        exists|held_ms: int|
            held_ms >= 0 && (final(engine).mode(), a) == engine_response(
                cmd,
                old(engine).mode(),
                held_ms,
                old(engine).threshold_ms() as int,
            ),
        final(engine).threshold_ms() == old(engine).threshold_ms(),
        old(engine).wf() ==> final(engine).wf(),
        cmd == IpcCommand::PttDown ==> (final(engine).mode(), a) == press_step(old(engine).mode()),
        cmd == IpcCommand::PttUp ==> exists|held_ms: int|
            held_ms >= 0 && (final(engine).mode(), a) == release_step(
                old(engine).mode(),
                held_ms,
                old(engine).threshold_ms() as int,
            ),
        cmd == IpcCommand::Toggle ==> (final(engine).mode(), a) == toggle_step(old(engine).mode()),
        cmd == IpcCommand::Cancel ==> (final(engine).mode(), a) == cancel_step(old(engine).mode()),
        cmd != IpcCommand::PttDown && cmd != IpcCommand::PttUp && cmd != IpcCommand::Toggle && cmd
            != IpcCommand::Cancel ==> *final(engine) == *old(engine) && a == Action::NoAction,
{
    let ghost before = *engine;
    let a = match cmd {
        IpcCommand::PttDown => engine.on_press(),
        IpcCommand::PttUp => engine.on_release(),
        IpcCommand::Toggle => engine.on_toggle(),
        IpcCommand::Cancel => engine.on_cancel(),
        _ => Action::NoAction,
    };
    proof {
        let thr = before.threshold_ms() as int;
        if cmd == IpcCommand::PttUp {
            let h = choose|h: int| h >= 0 && (engine.mode(), a) == release_step(before.mode(), h, thr);
            assert((engine.mode(), a) == engine_response(cmd, before.mode(), h, thr));
        } else {
            assert((engine.mode(), a) == engine_response(cmd, before.mode(), 0, thr));
        }
    }
    a
}

/// The message shown when a transcription request failed with the error text `err`.
pub open spec fn transcription_error_message(err: Seq<char>, server_url: Seq<char>, model: Seq<char>) -> Seq<char> {
    if contains_seq(err, "Failed to connect"@) || contains_seq(err, "Connection refused"@) {
        "Server unreachable ("@ + server_url + ")"@
    } else if contains_seq(err, "401"@) || contains_seq(err, "403"@) {
        "Auth error: Invalid API key"@
    } else if contains_seq(err, "404"@) {
        "Model not found or 404 ("@ + model + ")"@
    } else if contains_seq(err, "empty"@) {
        "No speech detected (empty audio)"@
    } else {
        "STT failed: "@ + err
    }
}

/// Describes a failed transcription for the HUD, tray and notification.
pub fn describe_transcription_error(err: &str, server_url: &str, model: &str) -> (r: String)
    ensures
        r@ == transcription_error_message(err@, server_url@, model@),
{
    let mut out: Vec<char> = Vec::new();
    if str_contains(err, "Failed to connect") || str_contains(err, "Connection refused") {
        push_str(&mut out, "Server unreachable (");
        push_str(&mut out, server_url);
        push_str(&mut out, ")");
    } else if str_contains(err, "401") || str_contains(err, "403") {
        push_str(&mut out, "Auth error: Invalid API key");
    } else if str_contains(err, "404") {
        push_str(&mut out, "Model not found or 404 (");
        push_str(&mut out, model);
        push_str(&mut out, ")");
    } else if str_contains(err, "empty") {
        push_str(&mut out, "No speech detected (empty audio)");
    } else {
        push_str(&mut out, "STT failed: ");
        push_str(&mut out, err);
    }
    string_from_chars(out.as_slice())
}


/// The sound played when the daemon performs an action.
pub open spec fn action_earcon(a: Action) -> Option<EarconType> {
    match a {
        Action::StartRecording => Some(EarconType::RecordingStarted),
        Action::StopAndTranscribe => Some(EarconType::RecordingStopped),
        Action::CancelRecording => Some(EarconType::Cancel),
        Action::NoAction => None,
    }
}

/// The sound played when the daemon performs `a` (see `action_earcon`).
pub fn earcon_for_action(a: Action) -> (e: Option<EarconType>)
    ensures
        e == action_earcon(a),
{
    match a {
        Action::StartRecording => Some(EarconType::RecordingStarted),
        Action::StopAndTranscribe => Some(EarconType::RecordingStopped),
        Action::CancelRecording => Some(EarconType::Cancel),
        Action::NoAction => None,
    }
}

/// What happens to the captured audio when the daemon performs an action.
#[derive(Debug, Clone, Copy, PartialEq, Eq, Structural)]
pub enum AudioDisposition {
    /// Open the microphone and start capturing.
    StartCapture,
    /// Stop capturing, encode the recording and send it for transcription.
    EncodeAndTranscribe,
    /// Drop the recording: it is neither encoded nor transcribed, so nothing
    /// is typed, copied or added to the history.
    Discard,
    /// Leave the capture as it is.
    Untouched,
}

/// The fate of the captured audio for each action.
pub open spec fn disposition_for(a: Action) -> AudioDisposition {
    match a {
        Action::StartRecording => AudioDisposition::StartCapture,
        Action::StopAndTranscribe => AudioDisposition::EncodeAndTranscribe,
        Action::CancelRecording => AudioDisposition::Discard,
        Action::NoAction => AudioDisposition::Untouched,
    }
}

/// What happens to the captured audio when the daemon performs `a` (see
/// `disposition_for`).
pub fn audio_disposition(a: Action) -> (d: AudioDisposition)
    ensures
        d == disposition_for(a),
{
    match a {
        Action::StartRecording => AudioDisposition::StartCapture,
        Action::StopAndTranscribe => AudioDisposition::EncodeAndTranscribe,
        Action::CancelRecording => AudioDisposition::Discard,
        Action::NoAction => AudioDisposition::Untouched,
    }
}

/// Cancelling while recording returns the engine to Idle, plays the cancel
/// sound and discards the recording without encoding or transcribing it; only
/// a stop sends audio for transcription.
pub proof fn lemma_cancel_discards_recording(s: ModeState)
    requires
        is_recording_state(s),
    ensures
        cancel_step(s) == (ModeState::Idle, Action::CancelRecording),
        action_earcon(cancel_step(s).1) == Some(EarconType::Cancel),
        disposition_for(cancel_step(s).1) == AudioDisposition::Discard,
        forall|a: Action| #[trigger] disposition_for(a) == AudioDisposition::EncodeAndTranscribe <==> a
            == Action::StopAndTranscribe,
{
}

/// How a started recording shows: on the preferred device, the device name;
/// on the fallback device, a degraded state naming it.
#[derive(Debug, Clone, PartialEq, Eq)]
pub enum RecordingDisplay {
    /// Recording on this device.
    Recording(String),
    /// Recording on a fallback device, with the reason and the device label.
    Degraded { reason: String, device: String },
}

/// How a recording on `device` shows (see `RecordingDisplay`).
pub open spec fn recording_display_for(is_fallback: bool, device: Seq<char>) -> (bool, Seq<char>, Seq<char>) {
    if is_fallback {
        (true, "Fallback microphone in use"@, device + " (Fallback)"@)
    } else {
        (false, Seq::empty(), device)
    }
}

/// How a recording on `device` shows (see `recording_display_for`).
pub fn recording_display(is_fallback: bool, device: &str) -> (r: RecordingDisplay)
    ensures
        match r {
            RecordingDisplay::Recording(d) => recording_display_for(is_fallback, device@) == (
                false,
                Seq::<char>::empty(),
                d@,
            ),
            RecordingDisplay::Degraded { reason, device: d } => recording_display_for(is_fallback, device@)
                == (true, reason@, d@),
        },
{
    if is_fallback {
        RecordingDisplay::Degraded {
            reason: String::from_str("Fallback microphone in use"),
            device: cat2(device, " (Fallback)"),
        }
    } else {
        RecordingDisplay::Recording(String::from_str(device))
    }
}

/// The message shown when the microphone could not be opened.
pub fn mic_error_message(err: &str) -> (r: String)
    ensures
        r@ == "Mic error: "@ + err@,
{
    cat2("Mic error: ", err)
}

/// The message shown when the recording could not be encoded.
pub fn audio_encoding_error_message(err: &str) -> (r: String)
    ensures
        r@ == "Audio encoding error: "@ + err@,
{
    cat2("Audio encoding error: ", err)
}

/// The message shown when the transcript could not be put into the
/// application.
pub fn output_error_message(err: &str) -> (r: String)
    ensures
        r@ == "Output error: "@ + err@,
{
    cat2("Output error: ", err)
}

/// Which parts of the daemon a configuration reload restarts.
#[derive(Debug, Clone, Copy, PartialEq, Eq, Structural)]
pub struct ReloadPlan {
    /// Stop the hardware hotkey watchers.
    pub stop_hotkey_listener: bool,
    /// Start hardware hotkey watchers for the new key.
    pub start_hotkey_listener: bool,
    /// Open recordings on the newly configured device.
    pub reload_recorder: bool,
}

/// What a reload restarts: the hotkey watchers when the hotkey settings
/// changed (started again only where enabled), the recorder when the device
/// changed.
pub open spec fn reload_plan_for(
    old_hotkey_enabled: bool,
    old_hotkey: Seq<char>,
    old_device: Option<Seq<char>>,
    new_hotkey_enabled: bool,
    new_hotkey: Seq<char>,
    new_device: Option<Seq<char>>,
) -> ReloadPlan {
    let hotkey_changed = new_hotkey_enabled != old_hotkey_enabled || new_hotkey != old_hotkey;
    ReloadPlan {
        stop_hotkey_listener: hotkey_changed,
        start_hotkey_listener: hotkey_changed && new_hotkey_enabled,
        reload_recorder: new_device != old_device,
    }
}

fn same_text(a: &str, b: &str) -> (r: bool)
    ensures
        r == (a@ == b@),
{
    let ac = chars_of(a);
    let bc = chars_of(b);
    chars_equal(ac.as_slice(), bc.as_slice())
}

/// What a reload from the old settings to the new ones restarts (see
/// `reload_plan_for`).
pub fn plan_reload(
    old_hotkey_enabled: bool,
    old_hotkey: &str,
    old_device: Option<&str>,
    new_hotkey_enabled: bool,
    new_hotkey: &str,
    new_device: Option<&str>,
) -> (p: ReloadPlan)
    ensures
        p == reload_plan_for(
            old_hotkey_enabled,
            old_hotkey@,
            match old_device {
                Some(d) => Some(d@),
                None => None,
            },
            new_hotkey_enabled,
            new_hotkey@,
            match new_device {
                Some(d) => Some(d@),
                None => None,
            },
        ),
{
    let hotkey_changed = new_hotkey_enabled != old_hotkey_enabled || !same_text(new_hotkey, old_hotkey);
    let device_changed = match (old_device, new_device) {
        (Some(a), Some(b)) => !same_text(a, b),
        (None, None) => false,
        _ => true,
    };
    ReloadPlan {
        stop_hotkey_listener: hotkey_changed,
        start_hotkey_listener: hotkey_changed && new_hotkey_enabled,
        reload_recorder: device_changed,
    }
}

/// Reloading unchanged settings restarts nothing.
pub proof fn lemma_unchanged_reload_restarts_nothing(enabled: bool, hotkey: Seq<char>, device: Option<Seq<char>>)
    ensures
        reload_plan_for(enabled, hotkey, device, enabled, hotkey, device) == (ReloadPlan {
            stop_hotkey_listener: false,
            start_hotkey_listener: false,
            reload_recorder: false,
        }),
{
}

} // verus!
