//! Daemon IPC vocabulary: the commands clients send, the daemon states it
//! reports, the plain-text command aliases and the replies to each command line.
use vstd::prelude::*;
use vstd::string::StringExecFns;

use crate::text::{chars_equal, chars_of, push_str, string_from_chars, trim_chars, trim_seq};

verus! {

/// What the daemon is doing, as broadcast to UI clients.
#[derive(Debug, Clone, PartialEq, Eq)]
pub enum DaemonState {
    Idle,
    Recording { device: Option<String> },
    Transcribing,
    Degraded { reason: String },
    Error { message: String },
}

/// A command sent to the daemon.
#[derive(Debug, Clone, Copy, PartialEq, Eq, Structural)]
pub enum IpcCommand {
    Toggle,
    PttDown,
    PttUp,
    Cancel,
    Status,
    ReloadConfig,
    PreviewHud,
    Subscribe,
}

/// The daemon's reply to a command line.
#[derive(Debug, Clone)]
pub struct IpcResponse {
    pub status: String,
    pub message: String,
}

/// The command named by a plain-text alias.
pub open spec fn alias_command(s: Seq<char>) -> Option<IpcCommand> {
    if s == "toggle"@ {
        Some(IpcCommand::Toggle)
    } else if s == "ptt-down"@ || s == "down"@ || s == "press"@ {
        Some(IpcCommand::PttDown)
    } else if s == "ptt-up"@ || s == "up"@ || s == "release"@ {
        Some(IpcCommand::PttUp)
    } else if s == "cancel"@ {
        Some(IpcCommand::Cancel)
    } else if s == "status"@ {
        Some(IpcCommand::Status)
    } else if s == "reload"@ || s == "reload-config"@ || s == "reload_config"@ {
        Some(IpcCommand::ReloadConfig)
    } else if s == "preview-hud"@ || s == "preview_hud"@ || s == "preview"@ {
        Some(IpcCommand::PreviewHud)
    } else if s == "subscribe"@ || s == "events"@ || s == "listen"@ {
        Some(IpcCommand::Subscribe)
    } else {
        None
    }
}

fn is_word(t: &Vec<char>, w: &str) -> (r: bool)
    ensures
        r == (t@ == w@),
{
    let cw = chars_of(w);
    chars_equal(t.as_slice(), cw.as_slice())
}

/// Parses a plain-text command alias (surrounding whitespace ignored), such as
/// `toggle`, `press` or `reload-config`.
pub fn parse_ipc_alias(input: &str) -> (r: Option<IpcCommand>)
    ensures
        r == alias_command(trim_seq(input@)),
{
    let cs = chars_of(input);
    let t = trim_chars(cs.as_slice());
    if is_word(&t, "toggle") {
        Some(IpcCommand::Toggle)
    } else if is_word(&t, "ptt-down") || is_word(&t, "down") || is_word(&t, "press") {
        Some(IpcCommand::PttDown)
    } else if is_word(&t, "ptt-up") || is_word(&t, "up") || is_word(&t, "release") {
        Some(IpcCommand::PttUp)
    } else if is_word(&t, "cancel") {
        Some(IpcCommand::Cancel)
    } else if is_word(&t, "status") {
        Some(IpcCommand::Status)
    } else if is_word(&t, "reload") || is_word(&t, "reload-config") || is_word(&t, "reload_config") {
        Some(IpcCommand::ReloadConfig)
    } else if is_word(&t, "preview-hud") || is_word(&t, "preview_hud") || is_word(&t, "preview") {
        Some(IpcCommand::PreviewHud)
    } else if is_word(&t, "subscribe") || is_word(&t, "events") || is_word(&t, "listen") {
        Some(IpcCommand::Subscribe)
    } else {
        None
    }
}

/// The reply the daemon sends for a command line: the subscription
/// acknowledgement, the reload confirmation, a plain acknowledgement, or an
/// error naming the unrecognized line.
pub open spec fn reply_text(cmd: Option<IpcCommand>, line: Seq<char>) -> (Seq<char>, Seq<char>) {
    match cmd {
        Some(IpcCommand::Subscribe) => ("ok"@, "subscribed"@),
        Some(IpcCommand::ReloadConfig) => ("ok"@, "Configuration reloaded successfully"@),
        Some(_) => ("ok"@, "command processed"@),
        None => ("error"@, "unknown command: "@ + line),
    }
}

/// The daemon's response to the (trimmed) command line `line`, which parsed to
/// `cmd`.
pub fn command_reply(cmd: Option<IpcCommand>, line: &str) -> (r: IpcResponse)
    ensures
        (r.status@, r.message@) == reply_text(cmd, line@),
{
    match cmd {
        Some(IpcCommand::Subscribe) => IpcResponse {
            status: String::from_str("ok"),
            message: String::from_str("subscribed"),
        },
        Some(IpcCommand::ReloadConfig) => IpcResponse {
            status: String::from_str("ok"),
            message: String::from_str("Configuration reloaded successfully"),
        },
        Some(_) => IpcResponse {
            status: String::from_str("ok"),
            message: String::from_str("command processed"),
        },
        None => {
            let mut m: Vec<char> = Vec::new();
            push_str(&mut m, "unknown command: ");
            push_str(&mut m, line);
            IpcResponse { status: String::from_str("error"), message: string_from_chars(m.as_slice()) }
        },
    }
}


/// What the daemon does with one line read from a client.
#[derive(Debug, Clone)]
pub enum ServerStep {
    /// A blank line: nothing.
    Ignore,
    /// Acknowledge with the reply, then stream events to this client.
    Subscribe(IpcResponse),
    /// Hand the command to the event loop and send the reply.
    Forward(IpcCommand, IpcResponse),
    /// Send the error reply.
    Reject(IpcResponse),
}

/// Handles one line from a client, given what the trimmed line parsed to:
/// blank lines are ignored; a subscription is acknowledged; any other command
/// is forwarded and acknowledged; anything else is answered with an error.
pub fn server_step(raw_line: &str, parsed: Option<IpcCommand>) -> (r: ServerStep)
    ensures
        trim_seq(raw_line@).len() == 0 ==> r is Ignore,
        trim_seq(raw_line@).len() > 0 ==> match r {
            ServerStep::Subscribe(resp) => parsed == Some(IpcCommand::Subscribe) && (resp.status@, resp.message@)
                == reply_text(parsed, trim_seq(raw_line@)),
            ServerStep::Forward(c, resp) => parsed == Some(c) && c != IpcCommand::Subscribe && (resp.status@, resp.message@)
                == reply_text(parsed, trim_seq(raw_line@)),
            ServerStep::Reject(resp) => parsed is None && (resp.status@, resp.message@) == reply_text(
                parsed,
                trim_seq(raw_line@),
            ),
            ServerStep::Ignore => false,
        },
{
    let cs = chars_of(raw_line);
    let t = trim_chars(cs.as_slice());
    if t.len() == 0 {
        return ServerStep::Ignore;
    }
    let line = string_from_chars(t.as_slice());
    let reply = command_reply(parsed, line.as_str());
    match parsed {
        Some(IpcCommand::Subscribe) => ServerStep::Subscribe(reply),
        Some(c) => ServerStep::Forward(c, reply),
        None => ServerStep::Reject(reply),
    }
}

} // verus!
