//! The individual diagnostic checks. Each takes what was probed on the system
//! (files, devices, a server round trip, the daemon socket) and decides the
//! check's status, summary, details and remediation.
use vstd::prelude::*;
use vstd::string::StringExecFns;

use crate::autostart::AutostartStatus;
use crate::config::OutputMode;
use crate::doctor::{CheckResult, CheckStatus};
use crate::hotkey::ipc::IpcResponse;
use crate::text::{bool_text, cat2, cat3, contains_seq, decimal, join_seq, opt_string_view, push_bool,
    push_decimal, push_decimal_u64, push_joined_strings, push_str, str_contains, string_from_chars, trim_seq,
    chars_of, trim_chars, views};

verus! {

/// Whether `c` is the check with the given name, status, summary, details and
/// remediation.
pub open spec fn check_is(
    c: CheckResult,
    name: Seq<char>,
    outcome: (CheckStatus, Seq<char>, Seq<Seq<char>>, Option<Seq<char>>),
) -> bool {
    &&& c.name@ == name
    &&& c.status == outcome.0
    &&& c.summary@ == outcome.1
    &&& views(c.details@) == outcome.2
    &&& opt_string_view(c.remediation) == outcome.3
}

fn make_check(name: &str, status: CheckStatus, summary: String, details: Vec<String>, remediation: Option<String>) -> (c: CheckResult)
    ensures
        check_is(c, name@, (status, summary@, views(details@), opt_string_view(remediation))),
{
    CheckResult { name: String::from_str(name), status, summary, details, remediation }
}

fn some_text(s: &str) -> (r: Option<String>)
    ensures
        opt_string_view(r) == Some(s@),
{
    Some(String::from_str(s))
}

/// How `{:?}` writes an output mode.
pub open spec fn output_mode_name(m: OutputMode) -> Seq<char> {
    match m {
        OutputMode::Paste => "Paste"@,
        OutputMode::ClipboardOnly => "ClipboardOnly"@,
        OutputMode::Type => "Type"@,
    }
}

/// `Enabled` or `Disabled`.
pub open spec fn enabled_word(b: bool) -> Seq<char> {
    if b {
        "Enabled"@
    } else {
        "Disabled"@
    }
}

/// Where the configuration file stands.
pub enum ConfigFile {
    /// The file exists at this path.
    Found(String),
    /// No file at this path; defaults are in use.
    Missing(String),
    /// The path could not be worked out, for this reason.
    Unresolved(String),
}

/// The configuration check: the settings in use as details, and whether they
/// came from a file.
pub open spec fn config_outcome(
    model: Seq<char>,
    server_url: Seq<char>,
    output_mode: OutputMode,
    ptt_threshold_ms: u64,
    sound_feedback: bool,
    hud_enabled: bool,
    save_audio_dir: Option<Seq<char>>,
    file: ConfigFile,
) -> (CheckStatus, Seq<char>, Seq<Seq<char>>, Option<Seq<char>>) {
    let base = seq![
        "Model: "@ + model,
        "Server URL: "@ + server_url,
        "Output Mode: "@ + output_mode_name(output_mode),
        "Hotkey Mode: PTT / Toggle (threshold: "@ + decimal(ptt_threshold_ms as nat) + "ms)"@,
        "Sound Feedback: "@ + enabled_word(sound_feedback),
        "HUD Overlay: "@ + enabled_word(hud_enabled),
    ];
    let details = match save_audio_dir {
        Some(d) => base.push("Audio Dataset Directory: "@ + d),
        None => base,
    };
    match file {
        ConfigFile::Found(p) => (CheckStatus::Pass, "Loaded: "@ + p@, details, None),
        ConfigFile::Missing(p) => (
            CheckStatus::Warn,
            "Using default configuration (file not found at "@ + p@ + ")"@,
            details,
            Some("Create a custom configuration file with: openwhisper init-config"@),
        ),
        ConfigFile::Unresolved(e) => (
            CheckStatus::Warn,
            "Could not resolve user config path: "@ + e@,
            details,
            Some("Ensure $HOME or standard XDG directories are configured"@),
        ),
    }
}

fn enabled_text(b: bool) -> (r: &'static str)
    ensures
        r@ == enabled_word(b),
{
    if b {
        "Enabled"
    } else {
        "Disabled"
    }
}

/// Checks the configuration in use.
pub fn check_config(
    model: &str,
    server_url: &str,
    output_mode: OutputMode,
    ptt_threshold_ms: u64,
    sound_feedback: bool,
    hud_enabled: bool,
    save_audio_dir: Option<&str>,
    file: ConfigFile,
) -> (c: CheckResult)
    ensures
        check_is(
            c,
            "Configuration"@,
            config_outcome(
                model@,
                server_url@,
                output_mode,
                ptt_threshold_ms,
                sound_feedback,
                hud_enabled,
                match save_audio_dir {
                    Some(d) => Some(d@),
                    None => None,
                },
                file,
            ),
        ),
{
    let mut details: Vec<String> = Vec::new();
    details.push(cat2("Model: ", model));
    details.push(cat2("Server URL: ", server_url));
    let mode = match output_mode {
        OutputMode::Paste => "Paste",
        OutputMode::ClipboardOnly => "ClipboardOnly",
        OutputMode::Type => "Type",
    };
    details.push(cat2("Output Mode: ", mode));
    let mut hk: Vec<char> = Vec::new();
    push_str(&mut hk, "Hotkey Mode: PTT / Toggle (threshold: ");
    push_decimal_u64(&mut hk, ptt_threshold_ms);
    push_str(&mut hk, "ms)");
    details.push(string_from_chars(hk.as_slice()));
    details.push(cat2("Sound Feedback: ", enabled_text(sound_feedback)));
    details.push(cat2("HUD Overlay: ", enabled_text(hud_enabled)));
    if let Some(dir) = save_audio_dir {
        details.push(cat2("Audio Dataset Directory: ", dir));
    }
    assert(views(details@) =~= config_outcome(
        model@,
        server_url@,
        output_mode,
        ptt_threshold_ms,
        sound_feedback,
        hud_enabled,
        match save_audio_dir {
            Some(d) => Some(d@),
            None => None,
        },
        file,
    ).2);
    match file {
        ConfigFile::Found(p) => make_check(
            "Configuration",
            CheckStatus::Pass,
            cat2("Loaded: ", p.as_str()),
            details,
            None,
        ),
        ConfigFile::Missing(p) => make_check(
            "Configuration",
            CheckStatus::Warn,
            cat3("Using default configuration (file not found at ", p.as_str(), ")"),
            details,
            some_text("Create a custom configuration file with: openwhisper init-config"),
        ),
        ConfigFile::Unresolved(e) => make_check(
            "Configuration",
            CheckStatus::Warn,
            cat2("Could not resolve user config path: ", e.as_str()),
            details,
            some_text("Ensure $HOME or standard XDG directories are configured"),
        ),
    }
}


/// The device named in the settings, or the system default.
pub open spec fn active_device_name(audio_device: Option<Seq<char>>) -> Seq<char> {
    match audio_device {
        Some(d) => d,
        None => "(System Default)"@,
    }
}

/// The audio hardware check: enumeration failure or no device fails; otherwise
/// the outcome of a short capture probe (the peak level written as text, or
/// the error) decides between pass and warning.
pub open spec fn audio_outcome(
    audio_device: Option<Seq<char>>,
    devices: Result<Seq<Seq<char>>, Seq<char>>,
    capture: Option<Result<Seq<char>, Seq<char>>>,
) -> (CheckStatus, Seq<char>, Seq<Seq<char>>, Option<Seq<char>>) {
    match devices {
        Err(e) => (
            CheckStatus::Fail,
            "Failed to enumerate audio input devices: "@ + e,
            seq!["Cannot access audio subsystem (ALSA / PipeWire / PulseAudio)"@],
            Some("Check system audio service (e.g. systemctl --user status pipewire)"@),
        ),
        Ok(ds) => if ds.len() == 0 {
            (
                CheckStatus::Fail,
                "No audio input devices (microphones) detected"@,
                seq!["System reports 0 available capture devices"@],
                Some("Connect a microphone or verify audio permissions"@),
            )
        } else {
            let active = active_device_name(audio_device);
            let base = seq![
                "Selected device: "@ + active,
                "Available devices: "@ + decimal(ds.len()) + " detected ("@ + join_seq(ds, ", "@) + ")"@,
            ];
            match capture {
                Some(Ok(peak)) => (
                    CheckStatus::Pass,
                    "Audio capture stream verified on "@ + active,
                    base.push("Capture stream probe: Succeeded (peak RMS level: "@ + peak + ")"@),
                    None,
                ),
                Some(Err(e)) => (
                    CheckStatus::Warn,
                    "Device list queried, but opening stream on "@ + active + " failed: "@ + e,
                    base.push("Capture stream probe failed: "@ + e),
                    Some("Ensure no exclusive access locks the device and test with: openwhisper record --duration 2"@),
                ),
                None => (CheckStatus::Warn, Seq::empty(), base, None),
            }
        },
    }
}

/// View of a device enumeration outcome.
pub open spec fn devices_view(d: Result<Vec<String>, String>) -> Result<Seq<Seq<char>>, Seq<char>> {
    match d {
        Ok(v) => Ok(views(v@)),
        Err(e) => Err(e@),
    }
}

/// View of a probe outcome.
pub open spec fn probe_view(p: Option<Result<String, String>>) -> Option<Result<Seq<char>, Seq<char>>> {
    match p {
        Some(Ok(v)) => Some(Ok(v@)),
        Some(Err(e)) => Some(Err(e@)),
        None => None,
    }
}

/// Whether the capture probe must run: the device list was read and is not
/// empty.
pub open spec fn capture_probe_due(devices: Result<Vec<String>, String>) -> bool {
    match devices {
        Ok(v) => v@.len() > 0,
        Err(_) => false,
    }
}

/// Whether the capture probe must run for this device enumeration.
pub fn audio_capture_probe_due(devices: &Result<Vec<String>, String>) -> (r: bool)
    ensures
        r == capture_probe_due(*devices),
{
    match devices {
        Ok(v) => v.len() > 0,
        Err(_) => false,
    }
}

/// Checks the audio input hardware from the device enumeration and, when
/// devices were found, the capture probe's outcome.
pub fn check_audio_hardware(
    audio_device: Option<&str>,
    devices: &Result<Vec<String>, String>,
    capture: &Option<Result<String, String>>,
) -> (c: CheckResult)
    requires
        capture_probe_due(*devices) ==> capture.is_some(),
    ensures
        check_is(
            c,
            "Audio Hardware"@,
            audio_outcome(
                match audio_device {
                    Some(d) => Some(d@),
                    None => None,
                },
                devices_view(*devices),
                probe_view(*capture),
            ),
        ),
{
    let ghost dev = match audio_device {
        Some(d) => Some(d@),
        None => None,
    };
    match devices {
        Err(e) => {
            let mut details: Vec<String> = Vec::new();
            details.push(String::from_str("Cannot access audio subsystem (ALSA / PipeWire / PulseAudio)"));
            assert(views(details@) =~= seq!["Cannot access audio subsystem (ALSA / PipeWire / PulseAudio)"@]);
            make_check(
                "Audio Hardware",
                CheckStatus::Fail,
                cat2("Failed to enumerate audio input devices: ", e.as_str()),
                details,
                some_text("Check system audio service (e.g. systemctl --user status pipewire)"),
            )
        },
        Ok(ds) => {
            if ds.len() == 0 {
                let mut details: Vec<String> = Vec::new();
                details.push(String::from_str("System reports 0 available capture devices"));
                assert(views(details@) =~= seq!["System reports 0 available capture devices"@]);
                return make_check(
                    "Audio Hardware",
                    CheckStatus::Fail,
                    String::from_str("No audio input devices (microphones) detected"),
                    details,
                    some_text("Connect a microphone or verify audio permissions"),
                );
            }
            let active: &str = match audio_device {
                Some(d) => d,
                None => "(System Default)",
            };
            let mut details: Vec<String> = Vec::new();
            details.push(cat2("Selected device: ", active));
            let mut avail: Vec<char> = Vec::new();
            push_str(&mut avail, "Available devices: ");
            push_decimal(&mut avail, ds.len());
            push_str(&mut avail, " detected (");
            push_joined_strings(&mut avail, ds, ", ");
            push_str(&mut avail, ")");
            details.push(string_from_chars(avail.as_slice()));
            let ghost base = views(details@);
            match capture {
                Some(Ok(peak)) => {
                    details.push(cat3("Capture stream probe: Succeeded (peak RMS level: ", peak.as_str(), ")"));
                    assert(views(details@) =~= base.push(
                        "Capture stream probe: Succeeded (peak RMS level: "@ + peak@ + ")"@,
                    ));
                    assert(views(details@) =~= audio_outcome(dev, devices_view(*devices), probe_view(*capture)).2);
                    make_check("Audio Hardware", CheckStatus::Pass, cat2("Audio capture stream verified on ", active), details, None)
                },
                Some(Err(e)) => {
                    details.push(cat2("Capture stream probe failed: ", e.as_str()));
                    assert(views(details@) =~= base.push("Capture stream probe failed: "@ + e@));
                    assert(views(details@) =~= audio_outcome(dev, devices_view(*devices), probe_view(*capture)).2);
                    let mut sm: Vec<char> = Vec::new();
                    push_str(&mut sm, "Device list queried, but opening stream on ");
                    push_str(&mut sm, active);
                    push_str(&mut sm, " failed: ");
                    push_str(&mut sm, e.as_str());
                    make_check(
                        "Audio Hardware",
                        CheckStatus::Warn,
                        string_from_chars(sm.as_slice()),
                        details,
                        some_text(
                            "Ensure no exclusive access locks the device and test with: openwhisper record --duration 2",
                        ),
                    )
                },
                None => {
                    make_check("Audio Hardware", CheckStatus::Warn, String::new(), details, None)
                },
            }
        },
    }
}

/// What a successful transcription probe returned: the round-trip time in
/// milliseconds written with one decimal and with none, and the transcript.
pub struct SttProbeReply {
    pub round_trip_ms: String,
    pub round_trip_ms_whole: String,
    pub text: String,
}

/// `format!("{:?}", s)`: a string as Rust's `Debug` writes it, quoted and
/// escaped.
pub uninterp spec fn str_debug(s: Seq<char>) -> Seq<char>;

/// Formats `s` with `Debug`; the result is the named quoted form of `s`.
#[verifier::external_body]
fn debug_quoted(s: &str) -> (r: String)
    ensures
        r@ == str_debug(s@),
{
    format!("{:?}", s)
}

/// The speech-to-text backend check: a successful probe passes with its
/// latency and reply; a failed one is classified by its error text.
pub open spec fn stt_outcome(
    server_url: Seq<char>,
    model: Seq<char>,
    api_key_set: bool,
    probe: Result<(Seq<char>, Seq<char>, Seq<char>), Seq<char>>,
) -> (CheckStatus, Seq<char>, Seq<Seq<char>>, Option<Seq<char>>) {
    let base = seq![
        "Endpoint URL: "@ + server_url,
        "Target Model: "@ + model,
        "API Key: "@ + (if api_key_set { "Configured"@ } else { "None / Local"@ }),
    ];
    match probe {
        Ok((ms, ms_whole, text)) => (
            CheckStatus::Pass,
            "Endpoint responsive ("@ + ms_whole + "ms) at "@ + server_url,
            base.push("Round-trip latency: "@ + ms + "ms"@).push("Probe response: "@ + str_debug(trim_seq(text))),
            None,
        ),
        Err(e) => {
            let details = base.push("Error message: "@ + e);
            if contains_seq(e, "Connection refused"@) || contains_seq(e, "Failed to connect"@) {
                (
                    CheckStatus::Fail,
                    "Connection refused to "@ + server_url,
                    details,
                    Some("Ensure your local inference server (OVMS, Whisper.cpp, vLLM, Ollama) is running on the specified port. Test with: openwhisper test-ovms"@),
                )
            } else if contains_seq(e, "401"@) || contains_seq(e, "403"@) {
                (
                    CheckStatus::Fail,
                    "Authentication failed (HTTP 401/403)"@,
                    details,
                    Some("Verify the api_key in ~/.config/openwhisper/config.toml or export OPENAI_API_KEY"@),
                )
            } else if contains_seq(e, "404"@) {
                (
                    CheckStatus::Fail,
                    "Model or endpoint path not found (HTTP 404) on "@ + server_url,
                    details,
                    Some("Verify that model '"@ + model + "' is loaded on the inference server"@),
                )
            } else {
                (
                    CheckStatus::Warn,
                    "Inference probe returned error: "@ + e,
                    details,
                    Some("Check server logs or test endpoint with: openwhisper test-ovms"@),
                )
            }
        },
    }
}

/// View of a transcription probe outcome.
pub open spec fn stt_probe_view(p: Result<SttProbeReply, String>) -> Result<(Seq<char>, Seq<char>, Seq<char>), Seq<char>> {
    match p {
        Ok(r) => Ok((r.round_trip_ms@, r.round_trip_ms_whole@, r.text@)),
        Err(e) => Err(e@),
    }
}

/// Checks the speech-to-text backend from the outcome of a probe request.
pub fn check_stt_backend(server_url: &str, model: &str, api_key_set: bool, probe: &Result<SttProbeReply, String>) -> (c: CheckResult)
    ensures
        check_is(c, "STT Inference Backend"@, stt_outcome(server_url@, model@, api_key_set, stt_probe_view(*probe))),
{
    let mut details: Vec<String> = Vec::new();
    details.push(cat2("Endpoint URL: ", server_url));
    details.push(cat2("Target Model: ", model));
    details.push(cat2("API Key: ", if api_key_set { "Configured" } else { "None / Local" }));
    let ghost base = views(details@);
    match probe {
        Ok(reply) => {
            details.push(cat3("Round-trip latency: ", reply.round_trip_ms.as_str(), "ms"));
            let tcs = chars_of(reply.text.as_str());
            let trimmed = string_from_chars(trim_chars(tcs.as_slice()).as_slice());
            let quoted = debug_quoted(trimmed.as_str());
            details.push(cat2("Probe response: ", quoted.as_str()));
            assert(views(details@) =~= stt_outcome(server_url@, model@, api_key_set, stt_probe_view(*probe)).2);
            let mut sm: Vec<char> = Vec::new();
            push_str(&mut sm, "Endpoint responsive (");
            push_str(&mut sm, reply.round_trip_ms_whole.as_str());
            push_str(&mut sm, "ms) at ");
            push_str(&mut sm, server_url);
            make_check("STT Inference Backend", CheckStatus::Pass, string_from_chars(sm.as_slice()), details, None)
        },
        Err(e) => {
            details.push(cat2("Error message: ", e.as_str()));
            assert(views(details@) =~= base.push("Error message: "@ + e@));
            assert(views(details@) =~= stt_outcome(server_url@, model@, api_key_set, stt_probe_view(*probe)).2);
            if str_contains(e.as_str(), "Connection refused") || str_contains(e.as_str(), "Failed to connect") {
                make_check(
                    "STT Inference Backend",
                    CheckStatus::Fail,
                    cat2("Connection refused to ", server_url),
                    details,
                    some_text("Ensure your local inference server (OVMS, Whisper.cpp, vLLM, Ollama) is running on the specified port. Test with: openwhisper test-ovms"),
                )
            } else if str_contains(e.as_str(), "401") || str_contains(e.as_str(), "403") {
                make_check(
                    "STT Inference Backend",
                    CheckStatus::Fail,
                    String::from_str("Authentication failed (HTTP 401/403)"),
                    details,
                    some_text("Verify the api_key in ~/.config/openwhisper/config.toml or export OPENAI_API_KEY"),
                )
            } else if str_contains(e.as_str(), "404") {
                make_check(
                    "STT Inference Backend",
                    CheckStatus::Fail,
                    cat2("Model or endpoint path not found (HTTP 404) on ", server_url),
                    details,
                    Some(cat3("Verify that model '", model, "' is loaded on the inference server")),
                )
            } else {
                make_check(
                    "STT Inference Backend",
                    CheckStatus::Warn,
                    cat2("Inference probe returned error: ", e.as_str()),
                    details,
                    some_text("Check server logs or test endpoint with: openwhisper test-ovms"),
                )
            }
        },
    }
}


/// What opening `/dev/uinput` for reading and writing gave.
pub enum UinputAccess {
    /// The device node does not exist.
    Missing,
    /// The node exists but could not be opened, with this error.
    Denied(String),
    /// The node was opened for reading and writing.
    Granted,
}

/// `available` or `not found`.
pub open spec fn availability(b: bool) -> Seq<char> {
    if b {
        "available"@
    } else {
        "not found"@
    }
}

/// The tools found on `PATH` that text insertion can fall back on.
pub struct InputTools {
    pub wl_copy: bool,
    pub wl_paste: bool,
    pub xclip: bool,
    pub wtype: bool,
    pub ydotool: bool,
}

/// The virtual input check: the display server, uinput access and the
/// clipboard and typing tools as details; uinput access decides the status.
pub open spec fn input_outcome(
    wayland_display: Option<Seq<char>>,
    x11_display: Option<Seq<char>>,
    uinput: UinputAccess,
    tools: InputTools,
) -> (CheckStatus, Seq<char>, Seq<Seq<char>>, Option<Seq<char>>) {
    let display: Seq<Seq<char>> = match wayland_display {
        Some(w) => seq!["Wayland Display: "@ + w],
        None => match x11_display {
            Some(d) => seq!["X11 Display: "@ + d + " (Running under X11 / XWayland)"@],
            None => Seq::empty(),
        },
    };
    let access: Seq<Seq<char>> = match uinput {
        UinputAccess::Granted => seq!["/dev/uinput: Read/write access verified (virtual keyboard enabled)"@],
        _ => Seq::empty(),
    };
    let tool_lines = seq![
        "Clipboard utilities: wl-copy ("@ + availability(tools.wl_copy) + "), wl-paste ("@ + availability(
            tools.wl_paste,
        ) + "), xclip ("@ + availability(tools.xclip) + ")"@,
        "Virtual typing fallback: wtype ("@ + availability(tools.wtype) + "), ydotool ("@ + availability(
            tools.ydotool,
        ) + ")"@,
    ];
    let details = display + access + tool_lines;
    match uinput {
        UinputAccess::Granted => (
            CheckStatus::Pass,
            "Direct /dev/uinput text injection and clipboard tools available"@,
            details,
            None,
        ),
        _ => (
            CheckStatus::Warn,
            "/dev/uinput is not writable; falling back to clipboard-only insertion"@,
            details,
            Some(
                "Grant uinput access by adding your user to the input group or creating a udev rule:\n  sudo usermod -aG input $USER\n  echo 'KERNEL==\"uinput\", SUBSYSTEM==\"misc\", TAG+=\"uaccess\"' | sudo tee /etc/udev/rules.d/70-uinput.rules && sudo udevadm trigger"@,
            ),
        ),
    }
}

fn availability_text(b: bool) -> (r: &'static str)
    ensures
        r@ == availability(b),
{
    if b {
        "available"
    } else {
        "not found"
    }
}

/// Checks the display server, `/dev/uinput` access and the fallback tools.
pub fn check_wayland_and_input(
    wayland_display: Option<&str>,
    x11_display: Option<&str>,
    uinput: UinputAccess,
    tools: InputTools,
) -> (c: CheckResult)
    ensures
        check_is(
            c,
            "Virtual Input & Wayland"@,
            input_outcome(
                match wayland_display {
                    Some(d) => Some(d@),
                    None => None,
                },
                match x11_display {
                    Some(d) => Some(d@),
                    None => None,
                },
                uinput,
                tools,
            ),
        ),
{
    let mut details: Vec<String> = Vec::new();
    if let Some(w) = wayland_display {
        details.push(cat2("Wayland Display: ", w));
    } else if let Some(d) = x11_display {
        details.push(cat3("X11 Display: ", d, " (Running under X11 / XWayland)"));
    }
    let granted = match uinput {
        UinputAccess::Granted => true,
        _ => false,
    };
    if granted {
        details.push(String::from_str("/dev/uinput: Read/write access verified (virtual keyboard enabled)"));
    }
    let mut clip: Vec<char> = Vec::new();
    push_str(&mut clip, "Clipboard utilities: wl-copy (");
    push_str(&mut clip, availability_text(tools.wl_copy));
    push_str(&mut clip, "), wl-paste (");
    push_str(&mut clip, availability_text(tools.wl_paste));
    push_str(&mut clip, "), xclip (");
    push_str(&mut clip, availability_text(tools.xclip));
    push_str(&mut clip, ")");
    details.push(string_from_chars(clip.as_slice()));
    let mut typing: Vec<char> = Vec::new();
    push_str(&mut typing, "Virtual typing fallback: wtype (");
    push_str(&mut typing, availability_text(tools.wtype));
    push_str(&mut typing, "), ydotool (");
    push_str(&mut typing, availability_text(tools.ydotool));
    push_str(&mut typing, ")");
    details.push(string_from_chars(typing.as_slice()));
    assert(views(details@) =~= input_outcome(
        match wayland_display {
            Some(d) => Some(d@),
            None => None,
        },
        match x11_display {
            Some(d) => Some(d@),
            None => None,
        },
        uinput,
        tools,
    ).2);
    if granted {
        make_check(
            "Virtual Input & Wayland",
            CheckStatus::Pass,
            String::from_str("Direct /dev/uinput text injection and clipboard tools available"),
            details,
            None,
        )
    } else {
        make_check(
            "Virtual Input & Wayland",
            CheckStatus::Warn,
            String::from_str("/dev/uinput is not writable; falling back to clipboard-only insertion"),
            details,
            some_text(
                "Grant uinput access by adding your user to the input group or creating a udev rule:\n  sudo usermod -aG input $USER\n  echo 'KERNEL==\"uinput\", SUBSYSTEM==\"misc\", TAG+=\"uaccess\"' | sudo tee /etc/udev/rules.d/70-uinput.rules && sudo udevadm trigger",
            ),
        )
    }
}

/// The autostart line of the daemon check.
pub open spec fn autostart_line(st: AutostartStatus) -> Seq<char> {
    "Autostart status: Daemon systemd: (enabled="@ + bool_text(st.daemon_systemd_enabled) + ", active="@
        + bool_text(st.daemon_systemd_active) + "), UI systemd: (enabled="@ + bool_text(st.ui_systemd_enabled)
        + ", active="@ + bool_text(st.ui_systemd_active) + "), XDG autostart: (installed="@ + bool_text(
        st.xdg_autostart_installed,
    ) + ")"@
}

/// The daemon check: a reply on the socket passes; otherwise it warns, with the
/// probe error and, where `systemctl` answered, the service's state.
pub open spec fn daemon_outcome(
    socket_path: Seq<char>,
    autostart: AutostartStatus,
    reply: Result<(Seq<char>, Seq<char>), Seq<char>>,
    service_state: Option<Seq<char>>,
) -> (CheckStatus, Seq<char>, Seq<Seq<char>>, Option<Seq<char>>) {
    let base = seq!["Socket path: "@ + socket_path, autostart_line(autostart)];
    match reply {
        Ok((status, message)) => (
            CheckStatus::Pass,
            "OpenWhisper daemon is running and responsive on "@ + socket_path,
            base.push("IPC Response: "@ + status + " ("@ + message + ")"@),
            None,
        ),
        Err(e) => {
            let probed = base.push("Socket connection probe: "@ + e);
            let details = match service_state {
                Some(s) => probed.push("systemd user service 'openwhisper.service': "@ + trim_seq(s)),
                None => probed,
            };
            (
                CheckStatus::Warn,
                "OpenWhisper background daemon is not running"@,
                details,
                Some("Start the daemon with: openwhisper (or enable service: systemctl --user start openwhisper.service)"@),
            )
        },
    }
}

/// View of the daemon's reply or the socket error.
pub open spec fn reply_view(r: Result<IpcResponse, String>) -> Result<(Seq<char>, Seq<char>), Seq<char>> {
    match r {
        Ok(resp) => Ok((resp.status@, resp.message@)),
        Err(e) => Err(e@),
    }
}

/// Checks that the daemon answers on its socket. `service_state` is what
/// `systemctl --user is-active openwhisper.service` printed, where it ran; it
/// is read only when the daemon did not answer.
pub fn check_daemon_and_ipc(
    socket_path: &str,
    autostart: &AutostartStatus,
    reply: &Result<IpcResponse, String>,
    service_state: Option<String>,
) -> (c: CheckResult)
    ensures
        check_is(
            c,
            "Daemon & IPC Service"@,
            daemon_outcome(socket_path@, *autostart, reply_view(*reply), opt_string_view(service_state)),
        ),
{
    let mut details: Vec<String> = Vec::new();
    details.push(cat2("Socket path: ", socket_path));
    let mut a: Vec<char> = Vec::new();
    push_str(&mut a, "Autostart status: Daemon systemd: (enabled=");
    push_bool(&mut a, autostart.daemon_systemd_enabled);
    push_str(&mut a, ", active=");
    push_bool(&mut a, autostart.daemon_systemd_active);
    push_str(&mut a, "), UI systemd: (enabled=");
    push_bool(&mut a, autostart.ui_systemd_enabled);
    push_str(&mut a, ", active=");
    push_bool(&mut a, autostart.ui_systemd_active);
    push_str(&mut a, "), XDG autostart: (installed=");
    push_bool(&mut a, autostart.xdg_autostart_installed);
    push_str(&mut a, ")");
    details.push(string_from_chars(a.as_slice()));
    let ghost base = views(details@);
    assert(base =~= seq!["Socket path: "@ + socket_path@, autostart_line(*autostart)]);
    match reply {
        Ok(resp) => {
            let mut l: Vec<char> = Vec::new();
            push_str(&mut l, "IPC Response: ");
            push_str(&mut l, resp.status.as_str());
            push_str(&mut l, " (");
            push_str(&mut l, resp.message.as_str());
            push_str(&mut l, ")");
            details.push(string_from_chars(l.as_slice()));
            assert(views(details@) =~= base.push("IPC Response: "@ + resp.status@ + " ("@ + resp.message@ + ")"@));
            make_check(
                "Daemon & IPC Service",
                CheckStatus::Pass,
                cat2("OpenWhisper daemon is running and responsive on ", socket_path),
                details,
                None,
            )
        },
        Err(e) => {
            details.push(cat2("Socket connection probe: ", e.as_str()));
            let ghost probed = views(details@);
            assert(probed =~= base.push("Socket connection probe: "@ + e@));
            if let Some(state) = &service_state {
                let scs = chars_of(state.as_str());
                let st = string_from_chars(trim_chars(scs.as_slice()).as_slice());
                details.push(cat2("systemd user service 'openwhisper.service': ", st.as_str()));
                assert(views(details@) =~= probed.push("systemd user service 'openwhisper.service': "@ + trim_seq(state@)));
            }
            make_check(
                "Daemon & IPC Service",
                CheckStatus::Warn,
                String::from_str("OpenWhisper background daemon is not running"),
                details,
                some_text("Start the daemon with: openwhisper (or enable service: systemctl --user start openwhisper.service)"),
            )
        },
    }
}

/// A desktop file looked for: where, and whether it is there.
pub struct FileProbe {
    pub path: String,
    pub exists: bool,
}

/// The desktop integration check: which desktop files are installed, whether
/// the KWin rule is set, and how many input devices are readable; a missing
/// icon or desktop entry gives a warning.
pub open spec fn desktop_outcome(
    icon: (Seq<char>, bool),
    desktop: (Seq<char>, bool),
    ui_desktop: (Seq<char>, bool),
    autostart: (Seq<char>, bool),
    kwin_rules: Option<Seq<char>>,
    evdev_devices: nat,
) -> (CheckStatus, Seq<char>, Seq<Seq<char>>, Option<Seq<char>>) {
    let d1: Seq<Seq<char>> = if icon.1 { seq!["Application icon: Found at "@ + icon.0] } else { Seq::empty() };
    let d2: Seq<Seq<char>> = if desktop.1 { seq!["Desktop entry: Found at "@ + desktop.0] } else { Seq::empty() };
    let d3: Seq<Seq<char>> = if ui_desktop.1 {
        seq!["UI service desktop entry: Found at "@ + ui_desktop.0]
    } else {
        Seq::empty()
    };
    let d4: Seq<Seq<char>> = if autostart.1 {
        seq!["XDG Autostart entry: Active at "@ + autostart.0]
    } else {
        Seq::empty()
    };
    let d5: Seq<Seq<char>> = match kwin_rules {
        Some(content) => if contains_seq(content, "openwhisper"@) {
            seq!["KDE Plasma KWin rules: HUD positioning rule detected"@]
        } else {
            seq!["KDE Plasma KWin rules: kwinrulesrc exists (HUD rule will sync automatically)"@]
        },
        None => Seq::empty(),
    };
    let details = d1 + d2 + d3 + d4 + d5 + seq!["Evdev hardware input devices: "@ + decimal(evdev_devices) + " accessible"@];
    let m1: Seq<Seq<char>> = if icon.1 {
        Seq::empty()
    } else {
        seq!["Scalable icon missing in ~/.local/share/icons/hicolor/scalable/apps"@]
    };
    let m2: Seq<Seq<char>> = if desktop.1 {
        Seq::empty()
    } else {
        seq!["Desktop entry missing in ~/.local/share/applications"@]
    };
    let missing = m1 + m2;
    if missing.len() == 0 {
        (CheckStatus::Pass, "Icons, desktop shortcuts, and window rules verified"@, details, None)
    } else {
        (
            CheckStatus::Warn,
            "Some desktop assets are not installed ("@ + join_seq(missing, ", "@) + ")"@,
            details,
            Some("Deploy all icons, desktop entries, and systemd units with: openwhisper setup"@),
        )
    }
}

/// Checks the installed desktop files, the KWin rule file's content (where it
/// could be read) and the number of readable input devices.
pub fn check_desktop_integration(
    icon: &FileProbe,
    desktop: &FileProbe,
    ui_desktop: &FileProbe,
    autostart: &FileProbe,
    kwin_rules: Option<String>,
    evdev_devices: usize,
) -> (c: CheckResult)
    ensures
        check_is(
            c,
            "Desktop Integration"@,
            desktop_outcome(
                (icon.path@, icon.exists),
                (desktop.path@, desktop.exists),
                (ui_desktop.path@, ui_desktop.exists),
                (autostart.path@, autostart.exists),
                opt_string_view(kwin_rules),
                evdev_devices as nat,
            ),
        ),
{
    let mut details: Vec<String> = Vec::new();
    let mut missing: Vec<String> = Vec::new();
    if icon.exists {
        details.push(cat2("Application icon: Found at ", icon.path.as_str()));
    } else {
        missing.push(String::from_str("Scalable icon missing in ~/.local/share/icons/hicolor/scalable/apps"));
    }
    if desktop.exists {
        details.push(cat2("Desktop entry: Found at ", desktop.path.as_str()));
    } else {
        missing.push(String::from_str("Desktop entry missing in ~/.local/share/applications"));
    }
    if ui_desktop.exists {
        details.push(cat2("UI service desktop entry: Found at ", ui_desktop.path.as_str()));
    }
    if autostart.exists {
        details.push(cat2("XDG Autostart entry: Active at ", autostart.path.as_str()));
    }
    if let Some(content) = &kwin_rules {
        if str_contains(content.as_str(), "openwhisper") {
            details.push(String::from_str("KDE Plasma KWin rules: HUD positioning rule detected"));
        } else {
            details.push(String::from_str("KDE Plasma KWin rules: kwinrulesrc exists (HUD rule will sync automatically)"));
        }
    }
    let mut ev: Vec<char> = Vec::new();
    push_str(&mut ev, "Evdev hardware input devices: ");
    push_decimal(&mut ev, evdev_devices);
    push_str(&mut ev, " accessible");
    details.push(string_from_chars(ev.as_slice()));
    let ghost outcome = desktop_outcome(
        (icon.path@, icon.exists),
        (desktop.path@, desktop.exists),
        (ui_desktop.path@, ui_desktop.exists),
        (autostart.path@, autostart.exists),
        opt_string_view(kwin_rules),
        evdev_devices as nat,
    );
    assert(views(details@) =~= outcome.2);
    let ghost m1: Seq<Seq<char>> = if icon.exists {
        Seq::empty()
    } else {
        seq!["Scalable icon missing in ~/.local/share/icons/hicolor/scalable/apps"@]
    };
    let ghost m2: Seq<Seq<char>> = if desktop.exists {
        Seq::empty()
    } else {
        seq!["Desktop entry missing in ~/.local/share/applications"@]
    };
    assert(views(missing@) =~= m1 + m2);
    if missing.len() == 0 {
        make_check(
            "Desktop Integration",
            CheckStatus::Pass,
            String::from_str("Icons, desktop shortcuts, and window rules verified"),
            details,
            None,
        )
    } else {
        let mut sm: Vec<char> = Vec::new();
        push_str(&mut sm, "Some desktop assets are not installed (");
        push_joined_strings(&mut sm, &missing, ", ");
        push_str(&mut sm, ")");
        make_check(
            "Desktop Integration",
            CheckStatus::Warn,
            string_from_chars(sm.as_slice()),
            details,
            some_text("Deploy all icons, desktop entries, and systemd units with: openwhisper setup"),
        )
    }
}

} // verus!
