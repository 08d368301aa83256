# openwhisper

A speech-to-text dictation assistant for Linux desktops: hold or tap a hotkey,
speak, and the transcript from a Whisper-compatible server is typed or pasted
into the focused application.

The decision logic is a library verified with Verus; the program around it
(audio capture, sockets, the HTTP client, the tray, files and the command line)
is ordinary Rust.

## Layout

- `src/` — the verified library.
  - `hotkey/` — the push-to-talk / toggle state machine, the IPC command
    protocol and the hardware key filter.
  - `transcribe/` — prompt building, transcript formatting and the handling of
    server replies.
  - `output/` — how a transcript is delivered (typing, pasting, clipboard) and
    the key events that type it.
  - `audio/` — device selection, recording file names, earcons and voice
    activity timing.
  - `doctor/` — the diagnostic checks and their aggregate report.
  - `config.rs`, `gui.rs` — configuration values, defaults and the settings
    panel's mapping to and from them.
  - `tray.rs`, `ui_service.rs`, `notification.rs` — tray icon, tooltip, recent
    history and notifications.
  - `setup.rs`, `autostart.rs`, `cli.rs`, `history.rs`, `daemon.rs` — desktop
    integration text, command dispatch and the daemon's decisions.
  - `text.rs` — string helpers shared by the modules above.
- `tests/` — tests of the library on concrete values.
- `app/` — the executable: I/O, threads, async runtime and outside services,
  calling the library for every decision.

Verify with Verus from this directory with `src/lib.rs` as the crate root.

## Not in this build

- The settings, HUD and history windows need a windowing toolkit that is not
  among the dependencies; `config-gui`, `hud-demo` and `history --gui` report
  that instead of opening a window. The settings panel's field mapping and
  vocabulary editing, the HUD's show/hide decisions and the history entry text
  are in the library.
- The desktop-portal shortcut listener is not started; the hardware hotkey and
  the `toggle` / `ptt-down` / `ptt-up` commands trigger dictation.
- `app/` also uses audio capture, resampling, noise suppression, tray,
  clipboard and notification crates that are not listed in `Cargo.toml`, so
  it does not build as it stands; the library and its tests do.
