//! Getting a transcript into the focused application: the output mode's steps
//! (clipboard, paste shortcut or typing) and when the previous clipboard
//! content is put back.
use vstd::prelude::*;

use crate::config::OutputMode;
use crate::text::{chars_equal, chars_of, trim_chars, trim_seq};

pub mod injector;

verus! {

/// How the transcript is put into the application after it is on the clipboard.
#[derive(Debug, Clone, Copy, PartialEq, Eq, Structural)]
pub enum Injection {
    /// Press the paste shortcut after waiting this many milliseconds.
    PasteShortcut { delay_ms: u64 },
    /// Type the text key by key.
    TypeText,
    /// Leave it on the clipboard.
    Nothing,
}

/// The steps for one transcript.
#[derive(Debug, Clone, Copy, PartialEq, Eq, Structural)]
pub struct OutputPlan {
    /// Whether anything is output at all (blank transcripts are not).
    pub output: bool,
    /// Whether the clipboard's current text is read first, to restore later.
    pub save_clipboard: bool,
    /// What follows copying the transcript to the clipboard.
    pub injection: Injection,
}

/// Puts transcripts into the focused application according to the output
/// settings.
pub struct OutputManager {
    mode: OutputMode,
    paste_delay_ms: u64,
    restore_clipboard: bool,
}

/// The milliseconds after which the previous clipboard text comes back: soon
/// after a paste, later after typing so the transcript can still be pasted by
/// hand.
pub open spec fn restore_delay(mode: OutputMode) -> u64 {
    match mode {
        OutputMode::Type => 5000,
        _ => 350,
    }
}

impl OutputManager {
    /// The output mode.
    pub closed spec fn mode(&self) -> OutputMode {
        self.mode
    }

    /// The wait before the paste shortcut, in milliseconds.
    pub closed spec fn paste_delay(&self) -> u64 {
        self.paste_delay_ms
    }

    /// Whether the previous clipboard text is put back.
    pub closed spec fn restores(&self) -> bool {
        self.restore_clipboard
    }

    /// The steps for a transcript `text`: nothing when it is blank; otherwise
    /// copy it, then paste or type it as the mode says, saving the clipboard
    /// first when it is to be restored (never in clipboard-only mode).
    pub open spec fn plan_for(&self, text: Seq<char>) -> OutputPlan {
        if trim_seq(text).len() == 0 {
            OutputPlan { output: false, save_clipboard: false, injection: Injection::Nothing }
        } else {
            match self.mode() {
                OutputMode::Paste => OutputPlan {
                    output: true,
                    save_clipboard: self.restores(),
                    injection: Injection::PasteShortcut { delay_ms: self.paste_delay() },
                },
                OutputMode::ClipboardOnly => OutputPlan {
                    output: true,
                    save_clipboard: false,
                    injection: Injection::Nothing,
                },
                OutputMode::Type => OutputPlan {
                    output: true,
                    save_clipboard: self.restores(),
                    injection: Injection::TypeText,
                },
            }
        }
    }

    /// A manager with the given settings.
    pub fn new(mode: OutputMode, paste_delay_ms: u64, restore_clipboard: bool) -> (m: Self)
        ensures
            m.mode() == mode,
            m.paste_delay() == paste_delay_ms,
            m.restores() == restore_clipboard,
    {
        OutputManager { mode, paste_delay_ms, restore_clipboard }
    }

    /// Takes new settings.
    pub fn update_config(&mut self, mode: OutputMode, paste_delay_ms: u64, restore_clipboard: bool)
        ensures
            final(self).mode() == mode,
            final(self).paste_delay() == paste_delay_ms,
            final(self).restores() == restore_clipboard,
    {
        self.mode = mode;
        self.paste_delay_ms = paste_delay_ms;
        self.restore_clipboard = restore_clipboard;
    }

    /// The steps for a transcript (see `plan_for`).
    pub fn plan(&self, text: &str) -> (p: OutputPlan)
        ensures
            p == self.plan_for(text@),
    {
        let cs = chars_of(text);
        if trim_chars(cs.as_slice()).len() == 0 {
            return OutputPlan { output: false, save_clipboard: false, injection: Injection::Nothing };
        }
        match self.mode {
            OutputMode::Paste => OutputPlan {
                output: true,
                save_clipboard: self.restore_clipboard,
                injection: Injection::PasteShortcut { delay_ms: self.paste_delay_ms },
            },
            OutputMode::ClipboardOnly => OutputPlan {
                output: true,
                save_clipboard: false,
                injection: Injection::Nothing,
            },
            OutputMode::Type => OutputPlan {
                output: true,
                save_clipboard: self.restore_clipboard,
                injection: Injection::TypeText,
            },
        }
    }

    /// After the transcript `text` went out, the clipboard text to put back
    /// and the milliseconds to wait first: the saved text, unless there is none
    /// or it is the transcript itself.
    pub fn restore_after(&self, text: &str, saved: Option<String>) -> (r: Option<(String, u64)>)
        ensures
            match saved {
                Some(prev) => if prev@ != text@ {
                    r matches Some((t, d)) && t@ == prev@ && d == restore_delay(self.mode())
                } else {
                    r is None
                },
                None => r is None,
            },
    {
        match saved {
            Some(prev) => {
                let pc = chars_of(prev.as_str());
                let tc = chars_of(text);
                if chars_equal(pc.as_slice(), tc.as_slice()) {
                    None
                } else {
                    let delay: u64 = match self.mode {
                        OutputMode::Type => 5000,
                        _ => 350,
                    };
                    Some((prev, delay))
                }
            },
            None => None,
        }
    }
}

/// A blank transcript never touches the clipboard or the application.
pub proof fn lemma_blank_output_does_nothing(m: OutputManager, text: Seq<char>)
    requires
        trim_seq(text).len() == 0,
    ensures
        !m.plan_for(text).output,
        !m.plan_for(text).save_clipboard,
        m.plan_for(text).injection == Injection::Nothing,
{
}

/// Clipboard-only mode never reads or restores the clipboard and never
/// injects keys.
pub proof fn lemma_clipboard_only_injects_nothing(m: OutputManager, text: Seq<char>)
    requires
        m.mode() == OutputMode::ClipboardOnly,
    ensures
        !m.plan_for(text).save_clipboard,
        m.plan_for(text).injection == Injection::Nothing,
{
}

} // verus!
