pub mod feedback;
pub mod recorder;
pub mod vad;
pub mod wav;
