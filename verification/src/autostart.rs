//! Launch-at-login status: how systemd user units and the XDG autostart entry
//! are read into a status, and the status report text.
use vstd::prelude::*;

use crate::text::{contains_seq, chars_equal, chars_of, push_str, string_from_chars, trim_chars, trim_seq};

verus! {

/// Whether the daemon and UI services start with the session.
#[derive(Debug, Clone)]
pub struct AutostartStatus {
    pub daemon_systemd_enabled: bool,
    pub daemon_systemd_active: bool,
    pub ui_systemd_enabled: bool,
    pub ui_systemd_active: bool,
    pub xdg_autostart_installed: bool,
    pub xdg_autostart_path: String,
}

/// What `systemctl --user <verb> <unit>` printed for each query, or `None` where
/// the command could not be run.
pub struct SystemdProbes {
    pub daemon_enabled: Option<String>,
    pub daemon_active: Option<String>,
    pub ui_enabled: Option<String>,
    pub ui_active: Option<String>,
}

/// `systemctl` reported the unit as enabled or active.
pub open spec fn unit_on(output: Seq<char>) -> bool {
    trim_seq(output) == "enabled"@ || trim_seq(output) == "active"@
}

/// A probe that ran and reported the unit as enabled or active.
pub open spec fn probe_on(probe: Option<String>) -> bool {
    match probe {
        Some(out) => unit_on(out@),
        None => false,
    }
}

/// Whether `systemctl` output says `enabled` or `active` (surrounding whitespace
/// ignored).
pub fn unit_state_is_on(systemctl_stdout: &str) -> (r: bool)
    ensures
        r == unit_on(systemctl_stdout@),
{
    let cs = chars_of(systemctl_stdout);
    let t = trim_chars(cs.as_slice());
    let enabled = chars_of("enabled");
    let active = chars_of("active");
    chars_equal(t.as_slice(), enabled.as_slice()) || chars_equal(t.as_slice(), active.as_slice())
}

fn probe_is_on(probe: &Option<String>) -> (r: bool)
    ensures
        r == probe_on(*probe),
{
    match probe {
        Some(out) => unit_state_is_on(out.as_str()),
        None => false,
    }
}

/// The autostart status from the `systemctl` probes and the XDG autostart entry.
pub fn status(probes: &SystemdProbes, xdg_installed: bool, xdg_path: String) -> (st: AutostartStatus)
    ensures
        st.daemon_systemd_enabled == probe_on(probes.daemon_enabled),
        st.daemon_systemd_active == probe_on(probes.daemon_active),
        st.ui_systemd_enabled == probe_on(probes.ui_enabled),
        st.ui_systemd_active == probe_on(probes.ui_active),
        st.xdg_autostart_installed == xdg_installed,
        st.xdg_autostart_path == xdg_path,
{
    AutostartStatus {
        daemon_systemd_enabled: probe_is_on(&probes.daemon_enabled),
        daemon_systemd_active: probe_is_on(&probes.daemon_active),
        ui_systemd_enabled: probe_is_on(&probes.ui_enabled),
        ui_systemd_active: probe_is_on(&probes.ui_active),
        xdg_autostart_installed: xdg_installed,
        xdg_autostart_path: xdg_path,
    }
}

/// Whether anything launches at login: either systemd unit is enabled or the XDG
/// autostart entry is installed.
pub fn is_enabled(st: &AutostartStatus) -> (r: bool)
    ensures
        r == (st.daemon_systemd_enabled || st.ui_systemd_enabled || st.xdg_autostart_installed),
{
    st.daemon_systemd_enabled || st.ui_systemd_enabled || st.xdg_autostart_installed
}

/// Colored enabled / disabled word.
pub open spec fn enabled_word(b: bool) -> Seq<char> {
    if b {
        "\x1b[32mEnabled\x1b[0m"@
    } else {
        "\x1b[33mDisabled\x1b[0m"@
    }
}

/// Colored running / inactive word.
pub open spec fn active_word(b: bool) -> Seq<char> {
    if b {
        "\x1b[32mActive (Running)\x1b[0m"@
    } else {
        "\x1b[37mInactive\x1b[0m"@
    }
}

/// Colored installed / not installed word.
pub open spec fn installed_word(b: bool) -> Seq<char> {
    if b {
        "\x1b[32mInstalled\x1b[0m"@
    } else {
        "\x1b[37mNot Installed\x1b[0m"@
    }
}

/// The status report text.
pub open spec fn status_report_text(st: AutostartStatus) -> Seq<char> {
    "\n🚀 OpenWhisper Autostart Status\n"@ + "==============================\n"@
        + " • Headless Daemon (systemd): "@ + enabled_word(st.daemon_systemd_enabled) + " | "@
        + active_word(st.daemon_systemd_active) + "\n"@ + " • UI Service (systemd):      "@
        + enabled_word(st.ui_systemd_enabled) + " | "@ + active_word(st.ui_systemd_active) + "\n"@
        + " • XDG Autostart Desktop:    "@ + installed_word(st.xdg_autostart_installed) + " ("@
        + st.xdg_autostart_path@ + ")\n"@ + "==============================\n"@ + launch_verdict(
        st.daemon_systemd_enabled || st.xdg_autostart_installed,
    )
}

/// The closing line: enabled when something launches the daemon at login.
pub open spec fn launch_verdict(on: bool) -> Seq<char> {
    if on {
        "Launch at startup is \x1b[1;32mENABLED\x1b[0m.\n"@
    } else {
        "Launch at startup is \x1b[1;33mDISABLED\x1b[0m. Use `openwhisper autostart --enable` to activate.\n"@
    }
}

/// The status report names the desktop entry's path and closes with the
/// verdict, which is the enabled line exactly when the daemon's unit is
/// enabled or the desktop entry is installed, and otherwise the disabled line
/// with the hint to enable it; the UI service's flags and whether the daemon
/// is running never change it.
pub proof fn lemma_status_report_verdict(st: AutostartStatus)
    ensures
        contains_seq(status_report_text(st), st.xdg_autostart_path@),
        ({
            let r = status_report_text(st);
            let v = launch_verdict(st.daemon_systemd_enabled || st.xdg_autostart_installed);
            r.len() >= v.len() && r.subrange(r.len() - v.len(), r.len() as int) == v
        }),
        launch_verdict(true) != launch_verdict(false),
        contains_seq(launch_verdict(false), "openwhisper autostart --enable"@),
{
    let r = status_report_text(st);
    let v = launch_verdict(st.daemon_systemd_enabled || st.xdg_autostart_installed);
    let pre = "\n🚀 OpenWhisper Autostart Status\n"@ + "==============================\n"@
        + " • Headless Daemon (systemd): "@ + enabled_word(st.daemon_systemd_enabled) + " | "@
        + active_word(st.daemon_systemd_active) + "\n"@ + " • UI Service (systemd):      "@
        + enabled_word(st.ui_systemd_enabled) + " | "@ + active_word(st.ui_systemd_active) + "\n"@
        + " • XDG Autostart Desktop:    "@ + installed_word(st.xdg_autostart_installed) + " ("@;
    let post = ")\n"@ + "==============================\n"@ + v;
    let p = st.xdg_autostart_path@;
    assert(r =~= pre + p + post);
    let i = pre.len() as int;
    assert(r.subrange(i, i + p.len()) =~= p);
    let body = pre + p + ")\n"@ + "==============================\n"@;
    assert(r =~= body + v);
    assert(r.subrange(r.len() - v.len(), r.len() as int) =~= v);
    let hint = "openwhisper autostart --enable"@;
    assert(launch_verdict(true).len() != launch_verdict(false).len() && contains_seq(launch_verdict(false), hint)) by {
        reveal_strlit("Launch at startup is \x1b[1;32mENABLED\x1b[0m.\n");
        reveal_strlit("Launch at startup is \x1b[1;33mDISABLED\x1b[0m. Use `openwhisper autostart --enable` to activate.\n");
        reveal_strlit("openwhisper autostart --enable");
        let k: int = 47;
        assert(launch_verdict(false).subrange(k, k + hint.len()) =~= hint);
    }
}

fn push_enabled_word(out: &mut Vec<char>, b: bool)
    ensures
        final(out)@ == old(out)@ + enabled_word(b),
{
    if b {
        push_str(out, "\x1b[32mEnabled\x1b[0m");
    } else {
        push_str(out, "\x1b[33mDisabled\x1b[0m");
    }
}

fn push_active_word(out: &mut Vec<char>, b: bool)
    ensures
        final(out)@ == old(out)@ + active_word(b),
{
    if b {
        push_str(out, "\x1b[32mActive (Running)\x1b[0m");
    } else {
        push_str(out, "\x1b[37mInactive\x1b[0m");
    }
}

/// Formats the autostart status as a terminal report.
pub fn format_status_report(st: &AutostartStatus) -> (r: String)
    ensures
        r@ == status_report_text(*st),
{
    let mut out: Vec<char> = Vec::new();
    push_str(&mut out, "\n🚀 OpenWhisper Autostart Status\n");
    push_str(&mut out, "==============================\n");
    push_str(&mut out, " • Headless Daemon (systemd): ");
    push_enabled_word(&mut out, st.daemon_systemd_enabled);
    push_str(&mut out, " | ");
    push_active_word(&mut out, st.daemon_systemd_active);
    push_str(&mut out, "\n");
    push_str(&mut out, " • UI Service (systemd):      ");
    push_enabled_word(&mut out, st.ui_systemd_enabled);
    push_str(&mut out, " | ");
    push_active_word(&mut out, st.ui_systemd_active);
    push_str(&mut out, "\n");
    push_str(&mut out, " • XDG Autostart Desktop:    ");
    if st.xdg_autostart_installed {
        push_str(&mut out, "\x1b[32mInstalled\x1b[0m");
    } else {
        push_str(&mut out, "\x1b[37mNot Installed\x1b[0m");
    }
    push_str(&mut out, " (");
    push_str(&mut out, st.xdg_autostart_path.as_str());
    push_str(&mut out, ")\n");
    push_str(&mut out, "==============================\n");
    if st.daemon_systemd_enabled || st.xdg_autostart_installed {
        push_str(&mut out, "Launch at startup is \x1b[1;32mENABLED\x1b[0m.\n");
    } else {
        push_str(
            &mut out,
            "Launch at startup is \x1b[1;33mDISABLED\x1b[0m. Use `openwhisper autostart --enable` to activate.\n",
        );
    }
    assert(out@ =~= status_report_text(*st));
    string_from_chars(out.as_slice())
}

} // verus!
