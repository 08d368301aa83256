//! The command line: its subcommands, which of them are daemon commands, and
//! what the `history` subcommand does with its options.
use vstd::prelude::*;
use vstd::string::StringExecFns;

use crate::daemon::engine_response;
use crate::hotkey::ipc::IpcCommand;
use crate::hotkey::state::{is_recording_state, Action, ModeState};
use crate::text::{chars_of, push_chars, push_str, string_from_chars, vec_from_range};

verus! {

/// Parsed command line.
pub struct Cli {
    pub command: Option<Commands>,
}

/// The subcommands.
pub enum Commands {
    /// Run the background service (hotkeys, IPC, recording, text output).
    Daemon { config: Option<String>, with_ui: bool },
    /// Toggle dictation on the running daemon.
    Toggle,
    /// Push-to-talk key down.
    PttDown,
    /// Push-to-talk key up.
    PttUp,
    /// Cancel the active recording.
    Cancel,
    /// Query the daemon's status.
    Status,
    /// One-shot recording and transcription.
    Record { duration: Option<u64>, no_paste: bool },
    /// Test the transcription endpoint.
    TestOvms { url: Option<String>, model: Option<String> },
    /// List audio input devices.
    ListDevices,
    /// Write the default configuration file.
    InitConfig,
    /// Open the settings window.
    ConfigGui,
    /// Reload the daemon's configuration.
    Reload,
    /// Install the binary, icons, desktop entries and service.
    Setup,
    /// Preview the HUD overlay.
    HudDemo { once: bool },
    /// Show raw hardware key events.
    TestHotkey,
    /// Browse the transcription history.
    History {
        limit: usize,
        search: Option<String>,
        copy: Option<i64>,
        delete: Option<i64>,
        clear: bool,
        json: bool,
        play: Option<i64>,
        gui: bool,
    },
    /// Run the diagnostics.
    Doctor { json: bool },
    /// Run the tray and HUD service.
    Ui,
    /// Manage launch at login.
    Autostart { enable: bool, disable: bool, json: bool },
}

/// The daemon command that a subcommand sends, if it is one.
pub open spec fn command_ipc(cmd: Commands) -> Option<IpcCommand> {
    match cmd {
        Commands::Toggle => Some(IpcCommand::Toggle),
        Commands::PttDown => Some(IpcCommand::PttDown),
        Commands::PttUp => Some(IpcCommand::PttUp),
        Commands::Cancel => Some(IpcCommand::Cancel),
        Commands::Status => Some(IpcCommand::Status),
        Commands::Reload => Some(IpcCommand::ReloadConfig),
        _ => None,
    }
}

/// The daemon command that `cmd` sends, if it is one of the daemon control
/// subcommands.
pub fn ipc_command_for(cmd: &Commands) -> (r: Option<IpcCommand>)
    ensures
        r == command_ipc(*cmd),
{
    match cmd {
        Commands::Toggle => Some(IpcCommand::Toggle),
        Commands::PttDown => Some(IpcCommand::PttDown),
        Commands::PttUp => Some(IpcCommand::PttUp),
        Commands::Cancel => Some(IpcCommand::Cancel),
        Commands::Status => Some(IpcCommand::Status),
        Commands::Reload => Some(IpcCommand::ReloadConfig),
        _ => None,
    }
}

/// The subcommand run when none is given: the daemon, headless, with the
/// default configuration.
pub fn default_command() -> (c: Commands)
    ensures
        c matches Commands::Daemon { config: None, with_ui: false },
{
    Commands::Daemon { config: None, with_ui: false }
}

/// What `history` does with its options.
#[derive(Debug, Clone, Copy, PartialEq, Eq, Structural)]
pub enum HistoryAction {
    /// Open the history window.
    OpenWindow,
    /// Play the recording of this entry.
    Play(i64),
    /// Copy this entry's text.
    Copy(i64),
    /// Delete this entry.
    Delete(i64),
    /// Delete every entry.
    ClearAll,
    /// List entries (matching the search, if any).
    List,
}

/// The action the options ask for, in order of precedence: the window, play,
/// copy, delete, clear, and otherwise the listing.
pub open spec fn history_action_for(gui: bool, play: Option<i64>, copy: Option<i64>, delete: Option<i64>, clear: bool) -> HistoryAction {
    if gui {
        HistoryAction::OpenWindow
    } else if play is Some {
        HistoryAction::Play(play.unwrap())
    } else if copy is Some {
        HistoryAction::Copy(copy.unwrap())
    } else if delete is Some {
        HistoryAction::Delete(delete.unwrap())
    } else if clear {
        HistoryAction::ClearAll
    } else {
        HistoryAction::List
    }
}

/// Decides what the `history` subcommand does (see `history_action_for`).
pub fn history_action(gui: bool, play: Option<i64>, copy: Option<i64>, delete: Option<i64>, clear: bool) -> (a: HistoryAction)
    ensures
        a == history_action_for(gui, play, copy, delete, clear),
{
    if gui {
        return HistoryAction::OpenWindow;
    }
    if let Some(id) = play {
        return HistoryAction::Play(id);
    }
    if let Some(id) = copy {
        return HistoryAction::Copy(id);
    }
    if let Some(id) = delete {
        return HistoryAction::Delete(id);
    }
    if clear {
        HistoryAction::ClearAll
    } else {
        HistoryAction::List
    }
}

/// The transcript column of the history listing: texts longer than 46
/// characters are cut to 43 and marked with `...`.
pub open spec fn listing_text(text: Seq<char>) -> Seq<char> {
    if text.len() > 46 {
        text.take(43) + "..."@
    } else {
        text
    }
}

/// The transcript column of the history listing (see `listing_text`).
pub fn history_listing_text(text: &str) -> (r: String)
    ensures
        r@ == listing_text(text@),
{
    let cs = chars_of(text);
    if cs.len() > 46 {
        let head = vec_from_range(cs.as_slice(), 0, 43);
        assert(head@ =~= text@.take(43));
        let mut out = head;
        push_str(&mut out, "...");
        string_from_chars(out.as_slice())
    } else {
        string_from_chars(cs.as_slice())
    }
}

/// The audio column of the history listing: whether the entry's recording is
/// still on disk.
pub open spec fn audio_column(recording_on_disk: bool) -> Seq<char> {
    if recording_on_disk {
        " 🔊 Yes"@
    } else {
        "   -   "@
    }
}

/// The audio column of the history listing (see `audio_column`).
pub fn history_audio_column(recording_on_disk: bool) -> (r: String)
    ensures
        r@ == audio_column(recording_on_disk),
{
    if recording_on_disk {
        String::from_str(" 🔊 Yes")
    } else {
        String::from_str("   -   ")
    }
}

/// What `history --clear` prints: saved recordings are kept, in the audio
/// directory when one is set.
pub open spec fn cleared_message(save_audio_dir: Option<Seq<char>>) -> Seq<char> {
    match save_audio_dir {
        Some(d) => "All transcription history cleared. (Note: Saved audio recordings in '"@ + d
            + "' were not deleted.)"@,
        None => "All transcription history cleared. (Note: Saved audio recordings on disk were not deleted.)"@,
    }
}

/// What `history --clear` prints (see `cleared_message`).
pub fn history_cleared_message(save_audio_dir: Option<&str>) -> (r: String)
    ensures
        r@ == cleared_message(
            match save_audio_dir {
                Some(d) => Some(d@),
                None => None,
            },
        ),
{
    match save_audio_dir {
        Some(d) => {
            let mut out: Vec<char> = Vec::new();
            push_str(&mut out, "All transcription history cleared. (Note: Saved audio recordings in '");
            push_str(&mut out, d);
            push_str(&mut out, "' were not deleted.)");
            string_from_chars(out.as_slice())
        },
        None => String::from_str(
            "All transcription history cleared. (Note: Saved audio recordings on disk were not deleted.)",
        ),
    }
}

/// Whether a subcommand controls the running daemon.
pub open spec fn is_daemon_control(cmd: Commands) -> bool {
    cmd is Toggle || cmd is PttDown || cmd is PttUp || cmd is Cancel || cmd is Status || cmd is Reload
}

/// Each daemon-control subcommand sends the command of its own name, and only
/// those send one. What the engine then does follows: `ptt-down` starts a
/// recording from Idle; `ptt-up` after a hold of at least the threshold stops
/// it for transcription, and after a shorter tap keeps recording hands-free;
/// `toggle` starts a recording from Idle and stops a running one; `cancel`
/// ends a running recording; `status` and `reload` leave the engine alone.
pub proof fn lemma_subcommands_drive_the_engine(held_ms: int, threshold_ms: int, s: ModeState)
    ensures
        command_ipc(Commands::Toggle) == Some(IpcCommand::Toggle),
        command_ipc(Commands::PttDown) == Some(IpcCommand::PttDown),
        command_ipc(Commands::PttUp) == Some(IpcCommand::PttUp),
        command_ipc(Commands::Cancel) == Some(IpcCommand::Cancel),
        command_ipc(Commands::Status) == Some(IpcCommand::Status),
        command_ipc(Commands::Reload) == Some(IpcCommand::ReloadConfig),
        forall|c: Commands| (#[trigger] command_ipc(c)) is Some <==> is_daemon_control(c),
        engine_response(command_ipc(Commands::PttDown)->0, ModeState::Idle, held_ms, threshold_ms) == (
            ModeState::HoldingPress,
            Action::StartRecording,
        ),
        held_ms >= threshold_ms ==> engine_response(
            command_ipc(Commands::PttUp)->0,
            ModeState::HoldingPress,
            held_ms,
            threshold_ms,
        ) == (ModeState::Transcribing, Action::StopAndTranscribe),
        held_ms < threshold_ms ==> engine_response(
            command_ipc(Commands::PttUp)->0,
            ModeState::HoldingPress,
            held_ms,
            threshold_ms,
        ) == (ModeState::ActiveToggle, Action::NoAction),
        engine_response(command_ipc(Commands::PttUp)->0, ModeState::Idle, held_ms, threshold_ms).1
            == Action::NoAction,
        engine_response(command_ipc(Commands::Toggle)->0, ModeState::Idle, held_ms, threshold_ms) == (
            ModeState::ActiveToggle,
            Action::StartRecording,
        ),
        is_recording_state(s) ==> engine_response(command_ipc(Commands::Toggle)->0, s, held_ms, threshold_ms)
            == (ModeState::Transcribing, Action::StopAndTranscribe),
        is_recording_state(s) ==> engine_response(command_ipc(Commands::Cancel)->0, s, held_ms, threshold_ms)
            == (ModeState::Idle, Action::CancelRecording),
        engine_response(command_ipc(Commands::Status)->0, s, held_ms, threshold_ms) == (s, Action::NoAction),
        engine_response(command_ipc(Commands::Reload)->0, s, held_ms, threshold_ms) == (s, Action::NoAction),
{
}

} // verus!
