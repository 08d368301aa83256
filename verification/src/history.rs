//! Transcription history text: the search pattern sent to the store, and the
//! summary line shown under each entry in the history window.
use vstd::prelude::*;

use crate::text::{chars_of, decimal, push_decimal, push_str, string_from_chars};

verus! {

/// The `LIKE` pattern that finds `query` anywhere in a transcript.
pub fn search_pattern(query: &str) -> (r: String)
    ensures
        r@ == "%"@ + query@ + "%"@,
{
    let mut out: Vec<char> = Vec::new();
    push_str(&mut out, "%");
    push_str(&mut out, query);
    push_str(&mut out, "%");
    string_from_chars(out.as_slice())
}

/// The number of characters in a transcript, as stored with it.
pub fn transcript_char_count(text: &str) -> (n: usize)
    ensures
        n == text@.len(),
{
    let cs = chars_of(text);
    cs.len()
}

/// The summary line of a history entry: duration (already written in
/// seconds), character count, model (`whisper` when none was recorded), and a
/// mark when its recording is on disk.
pub open spec fn entry_meta(duration: Seq<char>, char_count: nat, model: Seq<char>, has_audio: bool) -> Seq<char> {
    duration + "s • "@ + decimal(char_count) + " chars • "@ + (if model.len() == 0 {
        "whisper"@
    } else {
        model
    }) + (if has_audio {
        " • Audio"@
    } else {
        Seq::empty()
    })
}

/// The summary line of a history entry (see `entry_meta`).
pub fn history_item_meta(duration: &str, char_count: usize, model: &str, has_audio: bool) -> (r: String)
    ensures
        r@ == entry_meta(duration@, char_count as nat, model@, has_audio),
{
    let mut out: Vec<char> = Vec::new();
    push_str(&mut out, duration);
    push_str(&mut out, "s • ");
    push_decimal(&mut out, char_count);
    push_str(&mut out, " chars • ");
    let mc = chars_of(model);
    if mc.len() == 0 {
        push_str(&mut out, "whisper");
    } else {
        push_str(&mut out, model);
    }
    if has_audio {
        push_str(&mut out, " • Audio");
    }
    string_from_chars(out.as_slice())
}

} // verus!
