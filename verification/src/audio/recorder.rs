//! Microphone selection: which capture device a recording opens, and the file
//! names under which a recording and its transcript are kept.
use vstd::prelude::*;

use crate::text::{chars_of, contains_seq, contains_chars, lowercase_of, push_str, string_from_chars,
    str_to_lowercase};

verus! {

/// Opens recordings on a preferred input device, or on the system default.
pub struct AudioRecorder {
    device_name: Option<String>,
}

impl View for AudioRecorder {
    type V = Option<Seq<char>>;

    /// The preferred device name, if one is configured.
    closed spec fn view(&self) -> Option<Seq<char>> {
        match self.device_name {
            Some(n) => Some(n@),
            None => None,
        }
    }
}

/// Which input device a recording opens.
#[derive(Debug, Clone, Copy, PartialEq, Eq, Structural)]
pub enum DeviceChoice {
    /// The listed device at this index, whose name matches the preferred one.
    Matched(usize),
    /// The system default, because the preferred device is not connected.
    Fallback,
    /// The system default, because no device is preferred.
    SystemDefault,
}

/// Whether the device called `name` is the one asked for: its name contains
/// the wanted text, ignoring case.
pub open spec fn name_matches(name: Seq<char>, wanted: Seq<char>) -> bool {
    contains_seq(lowercase_of(name), lowercase_of(wanted))
}

/// Whether `names[i]` is the first name that matches `wanted`.
pub open spec fn first_match(names: Seq<Seq<char>>, wanted: Seq<char>, i: int) -> bool {
    &&& 0 <= i < names.len()
    &&& name_matches(names[i], wanted)
    &&& forall|k: int| 0 <= k < i ==> !name_matches(names[k], wanted)
}

/// Whether `c` is the device a recording opens among the devices called
/// `names`: the first whose name matches the preferred one; the system
/// default, flagged as a fallback, when none does; the system default when
/// nothing is preferred.
pub open spec fn device_chosen(preferred: Option<Seq<char>>, names: Seq<Seq<char>>, c: DeviceChoice) -> bool {
    match preferred {
        None => c == DeviceChoice::SystemDefault,
        Some(w) => match c {
            DeviceChoice::Matched(i) => first_match(names, w, i as int),
            DeviceChoice::Fallback => forall|i: int| 0 <= i < names.len() ==> !name_matches(#[trigger] names[i], w),
            DeviceChoice::SystemDefault => false,
        },
    }
}

/// Exactly one choice fits a preference and a device list.
pub proof fn lemma_device_choice_unique(
    preferred: Option<Seq<char>>,
    names: Seq<Seq<char>>,
    a: DeviceChoice,
    b: DeviceChoice,
)
    requires
        names.len() <= usize::MAX,
        device_chosen(preferred, names, a),
        device_chosen(preferred, names, b),
    ensures
        a == b,
{
    if let Some(w) = preferred {
        match (a, b) {
            (DeviceChoice::Matched(i), DeviceChoice::Matched(j)) => {
                if i < j {
                    assert(!name_matches(names[i as int], w));
                } else if j < i {
                    assert(!name_matches(names[j as int], w));
                }
            },
            (DeviceChoice::Matched(i), DeviceChoice::Fallback) => {
                assert(!name_matches(names[i as int], w));
            },
            (DeviceChoice::Fallback, DeviceChoice::Matched(j)) => {
                assert(!name_matches(names[j as int], w));
            },
            _ => {},
        }
    }
}

/// Whenever a connected device matches the preferred name, a recording opens
/// a matching device (the first one) and never falls back; so a preferred
/// microphone that is plugged back in is used again.
pub proof fn lemma_connected_preference_wins(
    preferred: Seq<char>,
    names: Seq<Seq<char>>,
    i: int,
    c: DeviceChoice,
)
    requires
        0 <= i < names.len(),
        name_matches(names[i], preferred),
        device_chosen(Some(preferred), names, c),
    ensures
        c matches DeviceChoice::Matched(j) && j <= i && name_matches(names[j as int], preferred),
{
    if let DeviceChoice::Matched(j) = c {
        if j > i {
            assert(!name_matches(names[i], preferred));
        }
    }
}

impl AudioRecorder {
    /// A recorder for the given preferred device (`None`: the system default).
    pub fn new(device_name: Option<String>) -> (r: Self)
        ensures
            r@ == (match device_name {
                Some(n) => Some(n@),
                None => None,
            }),
    {
        AudioRecorder { device_name }
    }

    /// The preferred device name, if any.
    pub fn preferred_device(&self) -> (r: Option<&str>)
        ensures
            r.is_some() == self@.is_some(),
            r.is_some() ==> r.unwrap()@ == self@.unwrap(),
    {
        match &self.device_name {
            Some(n) => Some(n.as_str()),
            None => None,
        }
    }

    /// Chooses the input device among the connected devices called `names`
    /// (see `device_chosen`).
    pub fn select_device(&self, names: &Vec<String>) -> (c: DeviceChoice)
        ensures
            device_chosen(self@, crate::text::views(names@), c),
    {
        match &self.device_name {
            None => DeviceChoice::SystemDefault,
            Some(wanted) => {
                let ghost w = wanted@;
                let ghost ns = crate::text::views(names@);
                let lw = str_to_lowercase(wanted.as_str());
                let lwc = chars_of(lw.as_str());
                let mut i: usize = 0;
                while i < names.len()
                    invariant
                        i <= names@.len(),
                        ns == crate::text::views(names@),
                        self@ == Some(w),
                        lwc@ == lowercase_of(w),
                        forall|k: int| 0 <= k < i ==> !name_matches(#[trigger] ns[k], w),
                    decreases names.len() - i,
                {
                    let ln = str_to_lowercase(names[i].as_str());
                    let lnc = chars_of(ln.as_str());
                    if contains_chars(lnc.as_slice(), lwc.as_slice()) {
                        assert(name_matches(ns[i as int], w));
                        return DeviceChoice::Matched(i);
                    }
                    i = i + 1;
                }
                DeviceChoice::Fallback
            },
        }
    }
}

/// The base name of a saved recording: `whisper_`, the local time stamp
/// (`%Y%m%d_%H%M%S`), and the milliseconds written with three digits.
pub open spec fn recording_base_name(stamp: Seq<char>, millis: u32) -> Seq<char> {
    "whisper_"@ + stamp + "_"@ + three_digits(millis as int)
}

/// `format!("{:03}", n)` for a number below 1000.
pub open spec fn three_digits(n: int) -> Seq<char> {
    seq![digit_of(n / 100), digit_of((n / 10) % 10), digit_of(n % 10)]
}

/// The character of a decimal digit.
pub open spec fn digit_of(d: int) -> char {
    crate::text::digit_char(d)
}

fn digit_char_exec(d: u32) -> (c: char)
    requires
        d < 10,
    ensures
        c == digit_of(d as int),
{
    if d == 0 {
        '0'
    } else if d == 1 {
        '1'
    } else if d == 2 {
        '2'
    } else if d == 3 {
        '3'
    } else if d == 4 {
        '4'
    } else if d == 5 {
        '5'
    } else if d == 6 {
        '6'
    } else if d == 7 {
        '7'
    } else if d == 8 {
        '8'
    } else {
        '9'
    }
}

/// The file names of a saved recording and of its transcript: the base name
/// with `.wav` and `.txt`.
pub fn recording_file_names(stamp: &str, millis: u32) -> (r: (String, String))
    requires
        millis < 1000,
    ensures
        r.0@ == recording_base_name(stamp@, millis) + ".wav"@,
        r.1@ == recording_base_name(stamp@, millis) + ".txt"@,
{
    let mut base: Vec<char> = Vec::new();
    push_str(&mut base, "whisper_");
    push_str(&mut base, stamp);
    push_str(&mut base, "_");
    base.push(digit_char_exec(millis / 100));
    base.push(digit_char_exec((millis / 10) % 10));
    base.push(digit_char_exec(millis % 10));
    let mut wav = base.clone();
    push_str(&mut wav, ".wav");
    let mut txt = base;
    push_str(&mut txt, ".txt");
    (string_from_chars(wav.as_slice()), string_from_chars(txt.as_slice()))
}

} // verus!
