//! Dual-mode hotkey state machine: hold the key for push-to-talk, tap it to
//! start hands-free recording and tap again to finish.
use std::time::Instant;
use vstd::prelude::*;

verus! {

/// `std::time::Instant`, carried opaquely: the engine only asks how long ago it was.
#[verifier::external_type_specification]
#[verifier::external_body]
pub struct ExInstant(Instant);

/// Calls `Instant::now`; nothing is known of the reading.
#[verifier::external_body]
fn instant_now() -> Instant {
    Instant::now()
}

/// Calls `Instant::elapsed` and reports the `Duration` in whole milliseconds
/// (`Duration::as_millis`); the value depends on the clock, so nothing is stated.
#[verifier::external_body]
fn elapsed_millis(since: &Instant) -> u128 {
    since.elapsed().as_millis()
}

/// What the daemon should do in response to a hotkey event.
#[derive(Debug, Clone, Copy, PartialEq, Eq, Structural)]
pub enum Action {
    StartRecording,
    StopAndTranscribe,
    CancelRecording,
    NoAction,
}

/// The engine's mode.
#[derive(Debug, Clone, Copy, PartialEq, Eq, Structural)]
pub enum ModeState {
    Idle,
    HoldingPress,
    ActiveToggle,
    Transcribing,
}

/// Whether audio is being captured in this mode.
pub open spec fn is_recording_state(s: ModeState) -> bool {
    s == ModeState::HoldingPress || s == ModeState::ActiveToggle
}

/// Next mode and action on a key press.
pub open spec fn press_step(s: ModeState) -> (ModeState, Action) {
    match s {
        ModeState::Idle => (ModeState::HoldingPress, Action::StartRecording),
        ModeState::ActiveToggle => (ModeState::Transcribing, Action::StopAndTranscribe),
        ModeState::HoldingPress => (ModeState::HoldingPress, Action::NoAction),
        ModeState::Transcribing => (ModeState::Transcribing, Action::NoAction),
    }
}

/// Next mode and action on a key release after the key was held `held_ms`
/// milliseconds, with the push-to-talk threshold `threshold_ms`.
pub open spec fn release_step(s: ModeState, held_ms: int, threshold_ms: int) -> (ModeState, Action) {
    match s {
        ModeState::HoldingPress => if held_ms >= threshold_ms {
            (ModeState::Transcribing, Action::StopAndTranscribe)
        } else {
            (ModeState::ActiveToggle, Action::NoAction)
        },
        _ => (s, Action::NoAction),
    }
}

/// Next mode and action on an explicit toggle command.
pub open spec fn toggle_step(s: ModeState) -> (ModeState, Action) {
    match s {
        ModeState::Idle => (ModeState::ActiveToggle, Action::StartRecording),
        ModeState::HoldingPress => (ModeState::Transcribing, Action::StopAndTranscribe),
        ModeState::ActiveToggle => (ModeState::Transcribing, Action::StopAndTranscribe),
        ModeState::Transcribing => (ModeState::Transcribing, Action::NoAction),
    }
}

/// Next mode and action on a cancel command.
pub open spec fn cancel_step(s: ModeState) -> (ModeState, Action) {
    if is_recording_state(s) {
        (ModeState::Idle, Action::CancelRecording)
    } else {
        (s, Action::NoAction)
    }
}

/// Tracks the hotkey mode and when the current recording started.
pub struct HotkeyEngine {
    state: ModeState,
    started_at: Option<Instant>,
    ptt_threshold_ms: u64,
}

impl HotkeyEngine {
    /// The current mode.
    pub closed spec fn mode(&self) -> ModeState {
        self.state
    }

    /// The push-to-talk threshold in milliseconds.
    pub closed spec fn threshold_ms(&self) -> u64 {
        self.ptt_threshold_ms
    }

    /// Whether a recording start time is held.
    pub closed spec fn timing(&self) -> bool {
        self.started_at is Some
    }

    /// A start time is held exactly while recording.
    pub open spec fn wf(&self) -> bool {
        self.timing() == is_recording_state(self.mode())
    }

    pub fn new(ptt_threshold_ms: u64) -> (e: Self)
        ensures
            e.mode() == ModeState::Idle,
            e.threshold_ms() == ptt_threshold_ms,
            e.wf(),
    {
        HotkeyEngine { state: ModeState::Idle, started_at: None, ptt_threshold_ms }
    }

    /// Takes a new push-to-talk threshold; the mode and timing are unchanged.
    pub fn set_ptt_threshold_ms(&mut self, ptt_threshold_ms: u64)
        ensures
            final(self).threshold_ms() == ptt_threshold_ms,
            final(self).mode() == old(self).mode(),
            final(self).timing() == old(self).timing(),
    {
        self.ptt_threshold_ms = ptt_threshold_ms;
    }

    pub fn current_state(&self) -> (s: ModeState)
        ensures
            s == self.mode(),
    {
        self.state
    }

    pub fn is_recording(&self) -> (r: bool)
        ensures
            r == is_recording_state(self.mode()),
    {
        match self.state {
            ModeState::HoldingPress | ModeState::ActiveToggle => true,
            _ => false,
        }
    }

    /// Handles a key press / key down event.
    pub fn on_press(&mut self) -> (a: Action)
        ensures
            (final(self).mode(), a) == press_step(old(self).mode()),
            final(self).threshold_ms() == old(self).threshold_ms(),
            old(self).wf() ==> final(self).wf(),
    {
        match self.state {
            ModeState::Idle => {
                self.state = ModeState::HoldingPress;
                self.started_at = Some(instant_now());
                Action::StartRecording
            },
            ModeState::ActiveToggle => {
                self.state = ModeState::Transcribing;
                self.started_at = None;
                Action::StopAndTranscribe
            },
            ModeState::HoldingPress => Action::NoAction,
            ModeState::Transcribing => Action::NoAction,
        }
    }

    /// Handles a key release after the key has been held `held_ms` milliseconds.
    pub fn release_after(&mut self, held_ms: u128) -> (a: Action)
        ensures
            (final(self).mode(), a) == release_step(
                old(self).mode(),
                held_ms as int,
                old(self).threshold_ms() as int,
            ),
            final(self).threshold_ms() == old(self).threshold_ms(),
            old(self).wf() ==> final(self).wf(),
    {
        match self.state {
            ModeState::HoldingPress => {
                if held_ms >= self.ptt_threshold_ms as u128 {
                    self.state = ModeState::Transcribing;
                    self.started_at = None;
                    Action::StopAndTranscribe
                } else {
                    self.state = ModeState::ActiveToggle;
                    Action::NoAction
                }
            },
            _ => Action::NoAction,
        }
    }

    /// Handles a key release / key up event, measuring how long the key was held
    /// on the monotonic clock.
    pub fn on_release(&mut self) -> (a: Action)
        ensures
            exists|held_ms: int|
                held_ms >= 0 && (final(self).mode(), a) == release_step(
                    old(self).mode(),
                    held_ms,
                    old(self).threshold_ms() as int,
                ),
            final(self).threshold_ms() == old(self).threshold_ms(),
            old(self).wf() ==> final(self).wf(),
    {
        let held_ms: u128 = match &self.started_at {
            Some(t) => elapsed_millis(t),
            None => 0,
        };
        self.release_after(held_ms)
    }

    /// Explicit toggle command (e.g. from CLI or button).
    pub fn on_toggle(&mut self) -> (a: Action)
        ensures
            (final(self).mode(), a) == toggle_step(old(self).mode()),
            final(self).threshold_ms() == old(self).threshold_ms(),
            old(self).wf() ==> final(self).wf(),
    {
        match self.state {
            ModeState::Idle => {
                self.state = ModeState::ActiveToggle;
                self.started_at = Some(instant_now());
                Action::StartRecording
            },
            ModeState::HoldingPress | ModeState::ActiveToggle => {
                self.state = ModeState::Transcribing;
                self.started_at = None;
                Action::StopAndTranscribe
            },
            ModeState::Transcribing => Action::NoAction,
        }
    }

    /// Cancels any in-progress recording.
    pub fn on_cancel(&mut self) -> (a: Action)
        ensures
            (final(self).mode(), a) == cancel_step(old(self).mode()),
            final(self).threshold_ms() == old(self).threshold_ms(),
            old(self).wf() ==> final(self).wf(),
    {
        if self.is_recording() {
            self.state = ModeState::Idle;
            self.started_at = None;
            Action::CancelRecording
        } else {
            Action::NoAction
        }
    }

    /// Marks transcription finished, resetting to Idle.
    pub fn on_transcription_finished(&mut self)
        ensures
            final(self).mode() == ModeState::Idle,
            final(self).threshold_ms() == old(self).threshold_ms(),
            final(self).wf(),
    {
        self.state = ModeState::Idle;
        self.started_at = None;
    }
}

/// Recording only starts from Idle, and it always enters a recording mode: no
/// event starts a second recording while one is running or being transcribed.
pub proof fn lemma_start_only_from_idle(s: ModeState, held_ms: int, threshold_ms: int)
    ensures
        press_step(s).1 == Action::StartRecording ==> s == ModeState::Idle && is_recording_state(
            press_step(s).0,
        ),
        toggle_step(s).1 == Action::StartRecording ==> s == ModeState::Idle
            && is_recording_state(toggle_step(s).0),
        release_step(s, held_ms, threshold_ms).1 != Action::StartRecording,
        cancel_step(s).1 != Action::StartRecording,
{
}

/// Stopping or cancelling only happens while recording, and afterwards nothing is
/// recorded: a stop leads to Transcribing, a cancel back to Idle.
pub proof fn lemma_stop_and_cancel_end_recording(s: ModeState, held_ms: int, threshold_ms: int)
    ensures
        press_step(s).1 == Action::StopAndTranscribe ==> is_recording_state(s) && press_step(s).0
            == ModeState::Transcribing,
        toggle_step(s).1 == Action::StopAndTranscribe ==> is_recording_state(s) && toggle_step(
            s,
        ).0 == ModeState::Transcribing,
        release_step(s, held_ms, threshold_ms).1 == Action::StopAndTranscribe ==> is_recording_state(
            s,
        ) && release_step(s, held_ms, threshold_ms).0 == ModeState::Transcribing,
        cancel_step(s).1 == Action::CancelRecording ==> is_recording_state(s) && cancel_step(s).0
            == ModeState::Idle,
        !is_recording_state(cancel_step(s).0),
{
}

/// While a transcription is in progress every hotkey event is ignored.
pub proof fn lemma_transcribing_ignores_events(held_ms: int, threshold_ms: int)
    ensures
        press_step(ModeState::Transcribing) == (ModeState::Transcribing, Action::NoAction),
        release_step(ModeState::Transcribing, held_ms, threshold_ms) == (
            ModeState::Transcribing,
            Action::NoAction,
        ),
        toggle_step(ModeState::Transcribing) == (ModeState::Transcribing, Action::NoAction),
        cancel_step(ModeState::Transcribing) == (ModeState::Transcribing, Action::NoAction),
{
}

/// Key repeats while the key is held are suppressed.
pub proof fn lemma_key_repeat_ignored()
    ensures
        press_step(ModeState::HoldingPress) == (ModeState::HoldingPress, Action::NoAction),
{
}

/// Push-to-talk: a press held at least the threshold, then released, records and
/// then stops for transcription.
pub proof fn lemma_hold_is_push_to_talk(held_ms: int, threshold_ms: int)
    requires
        held_ms >= threshold_ms,
    ensures
        press_step(ModeState::Idle) == (ModeState::HoldingPress, Action::StartRecording),
        release_step(ModeState::HoldingPress, held_ms, threshold_ms) == (
            ModeState::Transcribing,
            Action::StopAndTranscribe,
        ),
{
}

/// Hands-free toggle: a tap shorter than the threshold keeps recording, and the
/// next tap stops for transcription; releasing that second tap changes nothing.
pub proof fn lemma_tap_is_toggle(held_ms: int, second_held_ms: int, threshold_ms: int)
    requires
        held_ms < threshold_ms,
    ensures
        release_step(ModeState::HoldingPress, held_ms, threshold_ms) == (
            ModeState::ActiveToggle,
            Action::NoAction,
        ),
        press_step(ModeState::ActiveToggle) == (ModeState::Transcribing, Action::StopAndTranscribe),
        release_step(ModeState::Transcribing, second_held_ms, threshold_ms) == (
            ModeState::Transcribing,
            Action::NoAction,
        ),
{
}

} // verus!
