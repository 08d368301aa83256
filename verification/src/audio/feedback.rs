//! The audio cues played at each step of a dictation.
use vstd::prelude::*;

verus! {

/// A short sound played at a step of the dictation lifecycle.
#[derive(Debug, Clone, Copy, PartialEq, Eq, Structural)]
pub enum EarconType {
    RecordingStarted,
    RecordingStopped,
    Transcribed,
    Cancel,
    Error,
}

} // verus!
