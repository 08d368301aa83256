//! The tray and HUD service's reaction to the daemon's event stream: how each
//! reported state, finished transcription, diagnostics update and connection
//! change shows in the tray, and what the HUD is told.
use vstd::prelude::*;

use crate::hotkey::ipc::DaemonState;
use crate::text::{opt_string_view, views};
use crate::tray::{history_after_add, OpenWhisperTray, TrayController, TrayState};

verus! {

/// What the HUD overlay is told after a daemon state change.
#[derive(Debug, Clone, PartialEq, Eq)]
pub enum HudUpdate {
    /// Return to idle.
    Idle,
    /// Show the recording meter.
    Recording,
    /// Show the transcribing spinner.
    Transcribing,
    /// Show this error.
    Error(String),
    /// Leave the HUD as it is.
    Keep,
}

/// The tray state that shows a daemon state.
pub open spec fn tray_state_for(state: DaemonState) -> TrayState {
    match state {
        DaemonState::Idle => TrayState::Idle,
        DaemonState::Recording { .. } => TrayState::Recording,
        DaemonState::Transcribing => TrayState::Transcribing,
        DaemonState::Degraded { .. } => TrayState::Degraded,
        DaemonState::Error { .. } => TrayState::Error,
    }
}

/// The tray after the daemon reported `state`: the matching tray state, and the
/// recording device where one was named.
pub open spec fn tray_after_state(t: OpenWhisperTray, state: DaemonState) -> OpenWhisperTray {
    let dev = match state {
        DaemonState::Recording { device: Some(d) } => Some(d),
        _ => t.active_device,
    };
    OpenWhisperTray { state: tray_state_for(state), active_device: dev, ..t }
}

/// The HUD update for a daemon state: idle only where the HUD shows recording
/// or transcribing (a finished or failed dictation fades out on its own);
/// nothing for a degraded state.
pub open spec fn hud_update_for(state: DaemonState, hud_busy: bool) -> HudUpdate {
    match state {
        DaemonState::Idle => if hud_busy {
            HudUpdate::Idle
        } else {
            HudUpdate::Keep
        },
        DaemonState::Recording { .. } => HudUpdate::Recording,
        DaemonState::Transcribing => HudUpdate::Transcribing,
        DaemonState::Degraded { .. } => HudUpdate::Keep,
        DaemonState::Error { message } => HudUpdate::Error(message),
    }
}

/// Shows a daemon state in the tray and returns what the HUD is told.
/// `hud_busy` says whether the HUD shows recording or transcribing.
pub fn on_daemon_state(tray: &mut TrayController, state: DaemonState, hud_busy: bool) -> (h: HudUpdate)
    requires
        old(tray).wf(),
    ensures
        final(tray).wf(),
        final(tray)@ == tray_after_state(old(tray)@, state),
        h == hud_update_for(state, hud_busy),
{
    let ghost st = state;
    match state {
        DaemonState::Idle => {
            tray.set_state(TrayState::Idle);
            if hud_busy {
                HudUpdate::Idle
            } else {
                HudUpdate::Keep
            }
        },
        DaemonState::Recording { device } => {
            tray.set_state(TrayState::Recording);
            if device.is_some() {
                tray.set_active_device(device);
            }
            HudUpdate::Recording
        },
        DaemonState::Transcribing => {
            tray.set_state(TrayState::Transcribing);
            HudUpdate::Transcribing
        },
        DaemonState::Degraded { reason: _ } => {
            tray.set_state(TrayState::Degraded);
            HudUpdate::Keep
        },
        DaemonState::Error { message } => {
            tray.set_state(TrayState::Error);
            HudUpdate::Error(message)
        },
    }
}

/// Shows a finished transcription: offered to the recent list, its latency
/// (in seconds, as text) recorded, the last error cleared, the tray idle.
pub fn on_transcription_completed(tray: &mut TrayController, text: String, latency: Option<String>)
    requires
        old(tray).wf(),
    ensures
        final(tray).wf(),
        views(final(tray)@.history@) == history_after_add(views(old(tray)@.history@), text@),
        final(tray)@ == (OpenWhisperTray {
            history: final(tray)@.history,
            last_latency: if latency is Some { latency } else { old(tray)@.last_latency },
            last_error: None,
            state: TrayState::Idle,
            ..old(tray)@
        }),
{
    tray.add_history(text);
    tray.set_diagnostics(latency, None);
    tray.set_state(TrayState::Idle);
}

/// Shows the daemon's diagnostics: server, microphone, and the last latency
/// (kept when none is given) and error.
pub fn on_diagnostics(
    tray: &mut TrayController,
    server_url: String,
    active_device: Option<String>,
    last_latency: Option<String>,
    last_error: Option<String>,
)
    requires
        old(tray).wf(),
    ensures
        final(tray).wf(),
        final(tray)@ == (OpenWhisperTray {
            server_url: server_url,
            active_device: active_device,
            last_latency: if last_latency is Some { last_latency } else { old(tray)@.last_latency },
            last_error: last_error,
            ..old(tray)@
        }),
{
    tray.set_server_url(server_url);
    tray.set_active_device(active_device);
    tray.set_diagnostics(last_latency, last_error);
}

/// Shows the link to the daemon: idle once connected, degraded while it cannot
/// be reached or after it was lost.
pub fn on_connection(tray: &mut TrayController, connected: bool)
    requires
        old(tray).wf(),
    ensures
        final(tray).wf(),
        final(tray)@ == (OpenWhisperTray {
            state: if connected { TrayState::Idle } else { TrayState::Degraded },
            ..old(tray)@
        }),
{
    if connected {
        tray.set_state(TrayState::Idle);
    } else {
        tray.set_state(TrayState::Degraded);
    }
}

/// Milliseconds between two attempts to reach the daemon.
pub const RECONNECT_DELAY_MS: u64 = 1500;

/// The tray shows the daemon's state under the same name: it is idle,
/// recording, transcribing, degraded or in error exactly when the daemon
/// reports that state, and it agrees with the HUD, which shows the recording
/// meter exactly when the tray shows recording, the spinner exactly when it
/// shows transcribing, and an error exactly when it shows one. Nothing but the
/// state and the recording device changes.
pub proof fn lemma_tray_shows_daemon_state(t: OpenWhisperTray, s: DaemonState, hud_busy: bool)
    ensures
        (tray_after_state(t, s).state == TrayState::Idle) <==> (s is Idle),
        (tray_after_state(t, s).state == TrayState::Recording) <==> (s is Recording),
        (tray_after_state(t, s).state == TrayState::Transcribing) <==> (s is Transcribing),
        (tray_after_state(t, s).state == TrayState::Degraded) <==> (s is Degraded),
        (tray_after_state(t, s).state == TrayState::Error) <==> (s is Error),
        (hud_update_for(s, hud_busy) is Recording) <==> (tray_after_state(t, s).state == TrayState::Recording),
        (hud_update_for(s, hud_busy) is Transcribing) <==> (tray_after_state(t, s).state
            == TrayState::Transcribing),
        (hud_update_for(s, hud_busy) is Error) <==> (tray_after_state(t, s).state == TrayState::Error),
        s matches DaemonState::Error { message } ==> hud_update_for(s, hud_busy) == HudUpdate::Error(message),
        tray_after_state(t, s).history == t.history,
        tray_after_state(t, s).server_url == t.server_url,
        tray_after_state(t, s).socket_path == t.socket_path,
        tray_after_state(t, s).last_latency == t.last_latency,
        tray_after_state(t, s).last_error == t.last_error,
{
}

} // verus!
