//! Silence detection that ends a recording: once speech has been heard for
//! long enough, a long enough run of silence stops the recording.
use vstd::prelude::*;

verus! {

/// What the detector says after a chunk of audio.
#[derive(Debug, Clone, Copy, PartialEq, Eq, Structural)]
pub enum VadDecision {
    Continue,
    SilenceTimeout,
}

/// How loud a chunk of audio was, measured against the energy threshold.
#[derive(Debug, Clone, Copy, PartialEq, Eq, Structural)]
pub enum ChunkLevel {
    /// The chunk held no samples.
    Empty,
    /// Its energy reached the threshold.
    Speech,
    /// Its energy stayed below the threshold.
    Silence,
}

/// The timing rules of silence detection, in milliseconds.
#[derive(Debug, Clone, Copy, PartialEq, Eq, Structural)]
pub struct VadTiming {
    pub enabled: bool,
    pub silence_timeout_ms: u64,
    pub min_speech_duration_ms: u64,
}

/// Speech shorter than this (in milliseconds) never ends a recording.
pub const MIN_SPEECH_DURATION_MS: u64 = 300;

/// The timing rules for the given settings: silence detection on or off, and
/// the silence timeout; speech must last at least 300 ms.
pub fn vad_timing(enabled: bool, silence_timeout_ms: u64) -> (t: VadTiming)
    ensures
        t == (VadTiming { enabled, silence_timeout_ms, min_speech_duration_ms: 300 }),
{
    VadTiming { enabled, silence_timeout_ms, min_speech_duration_ms: MIN_SPEECH_DURATION_MS }
}

impl Default for VadTiming {
    /// Off, with an 1800 ms silence timeout and 300 ms of speech at least.
    fn default() -> (t: Self)
        ensures
            t == (VadTiming { enabled: false, silence_timeout_ms: 1800, min_speech_duration_ms: 300 }),
    {
        VadTiming { enabled: false, silence_timeout_ms: 1800, min_speech_duration_ms: MIN_SPEECH_DURATION_MS }
    }
}

/// The time from `earlier` to `later`, zero when `later` comes first
/// (`Instant::duration_since`).
pub open spec fn elapsed(later: u64, earlier: u64) -> int {
    if later >= earlier {
        later - earlier
    } else {
        0
    }
}

/// Tracks speech and silence over the chunks of one recording.
pub struct VadDetector {
    timing: VadTiming,
    speech_detected: bool,
    speech_started_at: Option<u64>,
    last_speech_time: Option<u64>,
}

impl VadDetector {
    /// The timing rules in force.
    pub closed spec fn timing(&self) -> VadTiming {
        self.timing
    }

    /// Whether speech has been heard since the start.
    pub closed spec fn heard_speech(&self) -> bool {
        self.speech_detected
    }

    /// When the first speech chunk came.
    pub closed spec fn speech_start(&self) -> Option<u64> {
        self.speech_started_at
    }

    /// When the latest speech chunk came.
    pub closed spec fn last_speech(&self) -> Option<u64> {
        self.last_speech_time
    }

    /// A detector that has heard nothing yet.
    pub fn new(timing: VadTiming) -> (d: Self)
        ensures
            d.timing() == timing,
            !d.heard_speech(),
            d.speech_start() is None,
            d.last_speech() is None,
    {
        VadDetector { timing, speech_detected: false, speech_started_at: None, last_speech_time: None }
    }

    /// Whether silence detection is on.
    pub fn is_enabled(&self) -> (b: bool)
        ensures
            b == self.timing().enabled,
    {
        self.timing.enabled
    }

    /// Whether speech has been heard since the start.
    pub fn has_detected_speech(&self) -> (b: bool)
        ensures
            b == self.heard_speech(),
    {
        self.speech_detected
    }

    /// Forgets what was heard, as at the start of a recording.
    pub fn reset(&mut self)
        ensures
            final(self).timing() == old(self).timing(),
            !final(self).heard_speech(),
            final(self).speech_start() is None,
            final(self).last_speech() is None,
    {
        self.speech_detected = false;
        self.speech_started_at = None;
        self.last_speech_time = None;
    }

    /// Takes in a chunk heard at `now_ms`. A speech chunk marks speech (and its
    /// start, the first time); a silent chunk ends the recording once speech
    /// has lasted the minimum duration and the silence timeout has passed since
    /// the last speech. A disabled detector, or an empty chunk, changes nothing.
    pub fn process_chunk(&mut self, level: ChunkLevel, now_ms: u64) -> (d: VadDecision)
        ensures
            final(self).timing() == old(self).timing(),
            !old(self).timing().enabled || level == ChunkLevel::Empty ==> d == VadDecision::Continue
                && final(self).heard_speech() == old(self).heard_speech()
                && final(self).speech_start() == old(self).speech_start()
                && final(self).last_speech() == old(self).last_speech(),
            old(self).timing().enabled && level == ChunkLevel::Speech ==> d == VadDecision::Continue
                && final(self).heard_speech()
                && final(self).speech_start() == (if old(self).heard_speech() {
                    old(self).speech_start()
                } else {
                    Some(now_ms)
                })
                && final(self).last_speech() == Some(now_ms),
            old(self).timing().enabled && level == ChunkLevel::Silence ==> final(self).heard_speech()
                == old(self).heard_speech() && final(self).speech_start() == old(self).speech_start()
                && final(self).last_speech() == old(self).last_speech() && (d == VadDecision::SilenceTimeout
                <==> (old(self).heard_speech() && (match old(self).speech_start() {
                    Some(t) => elapsed(now_ms, t),
                    None => 0,
                }) >= old(self).timing().min_speech_duration_ms && old(self).last_speech() is Some && elapsed(
                    now_ms,
                    old(self).last_speech().unwrap(),
                ) >= old(self).timing().silence_timeout_ms)),
    {
        if !self.timing.enabled {
            return VadDecision::Continue;
        }
        match level {
            ChunkLevel::Empty => VadDecision::Continue,
            ChunkLevel::Speech => {
                if !self.speech_detected {
                    self.speech_detected = true;
                    self.speech_started_at = Some(now_ms);
                }
                self.last_speech_time = Some(now_ms);
                VadDecision::Continue
            },
            ChunkLevel::Silence => {
                if self.speech_detected {
                    let speech_dur: u64 = match self.speech_started_at {
                        Some(t) => if now_ms >= t {
                            now_ms - t
                        } else {
                            0
                        },
                        None => 0,
                    };
                    if speech_dur >= self.timing.min_speech_duration_ms {
                        if let Some(last) = self.last_speech_time {
                            let since: u64 = if now_ms >= last {
                                now_ms - last
                            } else {
                                0
                            };
                            if since >= self.timing.silence_timeout_ms {
                                return VadDecision::SilenceTimeout;
                            }
                        }
                    }
                }
                VadDecision::Continue
            },
        }
    }
}

} // verus!
