//! Desktop notification content for the dictation lifecycle. The manager decides
//! whether a notification is due and what it says; showing it is left to the
//! caller.
use vstd::prelude::*;
use vstd::string::StringExecFns;

use crate::text::{chars_of, string_from_chars, trim_chars, trim_end_chars, trim_end_seq, trim_seq, vec_from_range};

verus! {

/// The first `max_chars` characters of `s` (right-trimmed) followed by `...` when
/// `s` is longer than that, else `s` trimmed.
pub open spec fn truncated_preview(s: Seq<char>, max_chars: int) -> Seq<char> {
    if s.len() > max_chars {
        trim_end_seq(s.take(max_chars)) + seq!['.', '.', '.']
    } else {
        trim_seq(s)
    }
}

/// Truncates `s` to at most `max_chars` characters (counted as Unicode scalar
/// values), marking a cut with `...`.
pub fn safe_truncate_chars(s: &str, max_chars: usize) -> (r: String)
    ensures
        r@ == truncated_preview(s@, max_chars as int),
{
    let cs = chars_of(s);
    if cs.len() > max_chars {
        let head = vec_from_range(cs.as_slice(), 0, max_chars);
        assert(head@ =~= cs@.take(max_chars as int));
        let mut out = trim_end_chars(head.as_slice());
        out.push('.');
        out.push('.');
        out.push('.');
        assert(out@ =~= trim_end_seq(s@.take(max_chars as int)) + seq!['.', '.', '.']);
        string_from_chars(out.as_slice())
    } else {
        let out = trim_chars(cs.as_slice());
        string_from_chars(out.as_slice())
    }
}

/// A desktop notification to show.
pub struct Notice {
    pub app_name: String,
    pub summary: String,
    pub body: String,
    pub timeout_ms: u32,
}

/// Whether `n` is the notification with the given texts and timeout.
pub open spec fn notice_is(n: Notice, summary: Seq<char>, body: Seq<char>, timeout_ms: u32) -> bool {
    &&& n.app_name@ == "OpenWhisper"@
    &&& n.summary@ == summary
    &&& n.body@ == body
    &&& n.timeout_ms == timeout_ms
}

fn make_notice(summary: &str, body: String, timeout_ms: u32) -> (n: Notice)
    ensures
        notice_is(n, summary@, body@, timeout_ms),
{
    Notice {
        app_name: String::from_str("OpenWhisper"),
        summary: String::from_str(summary),
        body,
        timeout_ms,
    }
}

/// Decides which dictation notifications are shown.
pub struct NotificationManager {
    enabled: bool,
}

impl View for NotificationManager {
    type V = bool;

    /// Whether notifications are enabled.
    closed spec fn view(&self) -> bool {
        self.enabled
    }
}

impl NotificationManager {
    pub fn new(enabled: bool) -> (m: Self)
        ensures
            m@ == enabled,
    {
        Self { enabled }
    }

    pub fn set_enabled(&mut self, enabled: bool)
        ensures
            final(self)@ == enabled,
    {
        self.enabled = enabled;
    }

    pub fn is_enabled(&self) -> (r: bool)
        ensures
            r == self@,
    {
        self.enabled
    }

    /// The notification for the start of a recording, if notifications are on.
    pub fn recording_started(&self) -> (n: Option<Notice>)
        ensures
            n is Some <==> self@,
            n matches Some(x) ==> notice_is(
                x,
                "🎙️ Listening..."@,
                "Recording audio. Release key or tap to finish."@,
                2000,
            ),
    {
        if !self.enabled {
            return None;
        }
        Some(
            make_notice(
                "🎙️ Listening...",
                String::from_str("Recording audio. Release key or tap to finish."),
                2000,
            ),
        )
    }

    /// The notification for the start of a transcription, if notifications are on.
    pub fn transcribing(&self) -> (n: Option<Notice>)
        ensures
            n is Some <==> self@,
            n matches Some(x) ==> notice_is(
                x,
                "⏳ Transcribing..."@,
                "Processing speech with Whisper..."@,
                2000,
            ),
    {
        if !self.enabled {
            return None;
        }
        Some(
            make_notice(
                "⏳ Transcribing...",
                String::from_str("Processing speech with Whisper..."),
                2000,
            ),
        )
    }

    /// The notification showing a finished transcript (previewed to 100
    /// characters), if notifications are on.
    pub fn transcribed(&self, text: &str) -> (n: Option<Notice>)
        ensures
            n is Some <==> self@,
            n matches Some(x) ==> notice_is(
                x,
                "✍️ Transcribed"@,
                truncated_preview(text@, 100),
                3500,
            ),
    {
        if !self.enabled {
            return None;
        }
        let preview = safe_truncate_chars(text, 100);
        Some(make_notice("✍️ Transcribed", preview, 3500))
    }

    /// The notification reporting an error, if notifications are on.
    pub fn error(&self, message: &str) -> (n: Option<Notice>)
        ensures
            n is Some <==> self@,
            n matches Some(x) ==> notice_is(x, "❌ OpenWhisper Error"@, message@, 5000),
    {
        if !self.enabled {
            return None;
        }
        Some(make_notice("❌ OpenWhisper Error", String::from_str(message), 5000))
    }
}

} // verus!
