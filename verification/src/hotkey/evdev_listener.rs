//! Hardware push-to-talk key: which key events become daemon commands, which
//! input devices are watched, and the handle that stops the watchers.
use vstd::prelude::*;
use std::sync::atomic::AtomicBool;
use std::sync::atomic::Ordering;
use std::sync::Arc;

use crate::hotkey::ipc::IpcCommand;
use crate::text::{contains_seq, str_contains};

verus! {

/// Stops the evdev watcher threads when asked.
pub struct EvdevListenerHandle {
    running: Arc<AtomicBool>,
}

impl EvdevListenerHandle {
    /// The flag shared with the watcher threads.
    pub closed spec fn flag(&self) -> Arc<AtomicBool> {
        self.running
    }

    /// A handle over the flag that the watcher threads poll.
    pub fn new(running: Arc<AtomicBool>) -> (h: Self)
        ensures
            h.flag() == running,
    {
        EvdevListenerHandle { running }
    }

    /// Tells the watcher threads to stop.
    pub fn stop(&self) {
        self.running.store(false, Ordering::Relaxed);
    }

    /// Whether the watchers are still told to run. The flag is shared with
    /// them, so nothing is stated of the value read.
    pub fn is_running(&self) -> bool {
        self.running.load(Ordering::Relaxed)
    }
}

/// A key event's value, as the kernel reports it.
#[derive(Debug, Clone, Copy, PartialEq, Eq, Structural)]
pub enum KeyTransition {
    /// Value 1: the key went down.
    Press,
    /// Value 0: the key went up.
    Release,
    /// Value 2: the kernel's auto-repeat while the key is held.
    Repeat,
}

/// The transition a key event value stands for, if any.
pub open spec fn transition_of(value: i32) -> Option<KeyTransition> {
    if value == 1 {
        Some(KeyTransition::Press)
    } else if value == 0 {
        Some(KeyTransition::Release)
    } else if value == 2 {
        Some(KeyTransition::Repeat)
    } else {
        None
    }
}

/// The transition a key event value stands for (see `transition_of`).
pub fn key_transition(value: i32) -> (t: Option<KeyTransition>)
    ensures
        t == transition_of(value),
{
    if value == 1 {
        Some(KeyTransition::Press)
    } else if value == 0 {
        Some(KeyTransition::Release)
    } else if value == 2 {
        Some(KeyTransition::Repeat)
    } else {
        None
    }
}

/// Code of the Escape key, which aborts a recording.
pub const KEY_ESC: u16 = 1;

/// The command a key event sends: pressing the watched key is push-to-talk
/// down, releasing it push-to-talk up; pressing Escape (when it is not the
/// watched key) cancels; repeats and other events send nothing.
pub open spec fn event_command(is_key_event: bool, code: u16, target: u16, value: i32) -> Option<IpcCommand> {
    if is_key_event && code == target {
        match transition_of(value) {
            Some(KeyTransition::Press) => Some(IpcCommand::PttDown),
            Some(KeyTransition::Release) => Some(IpcCommand::PttUp),
            _ => None,
        }
    } else if is_key_event && code == KEY_ESC && transition_of(value) == Some(KeyTransition::Press) {
        Some(IpcCommand::Cancel)
    } else {
        None
    }
}

/// The command that an input event sends (see `event_command`).
pub fn key_event_command(is_key_event: bool, code: u16, target: u16, value: i32) -> (r: Option<IpcCommand>)
    ensures
        r == event_command(is_key_event, code, target, value),
{
    if is_key_event && code == target {
        match key_transition(value) {
            Some(KeyTransition::Press) => Some(IpcCommand::PttDown),
            Some(KeyTransition::Release) => Some(IpcCommand::PttUp),
            _ => None,
        }
    } else if is_key_event && code == KEY_ESC && value == 1 {
        Some(IpcCommand::Cancel)
    } else {
        None
    }
}

/// Whether an input device gets a watcher: it is not the virtual keyboard that
/// this program types with, it has the watched key, and it is not watched yet.
pub open spec fn device_watched(name: Option<Seq<char>>, has_target_key: bool, already_watched: bool) -> bool {
    let own = match name {
        Some(n) => contains_seq(n, "OpenWhisper"@),
        None => false,
    };
    !own && has_target_key && !already_watched
}

/// Whether to attach a watcher to an input device (see `device_watched`).
pub fn should_watch_device(name: Option<&str>, has_target_key: bool, already_watched: bool) -> (r: bool)
    ensures
        r == device_watched(
            match name {
                Some(n) => Some(n@),
                None => None,
            },
            has_target_key,
            already_watched,
        ),
{
    if let Some(n) = name {
        if str_contains(n, "OpenWhisper") {
            return false;
        }
    }
    has_target_key && !already_watched
}

/// Time between two scans for new input devices, in milliseconds.
pub const RESCAN_INTERVAL_MS: u64 = 4000;

/// How often a sleeping scanner checks whether it must stop, in milliseconds.
pub const STOP_POLL_MS: u64 = 100;

} // verus!
