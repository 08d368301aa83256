use openwhisper::audio::wav::recording_wav;
use openwhisper::audio::recorder::recording_file_names;
use openwhisper::audio::recorder::AudioRecorder;
use openwhisper::audio::recorder::DeviceChoice;
use openwhisper::audio::vad::ChunkLevel;
use openwhisper::audio::vad::VadDecision;
use openwhisper::audio::vad::VadDetector;
use openwhisper::audio::vad::VadTiming;

#[test]
fn test_audio_recorder_constructor() {
    let rec1 = AudioRecorder::new(None);
    assert!(rec1.preferred_device().is_none());

    let rec2 = AudioRecorder::new(Some("usb-mic".into()));
    assert_eq!(rec2.preferred_device(), Some("usb-mic"));
}

#[test]
fn test_audio_recorder_fallback_selection() {
    let names = vec!["HDA Intel PCH".to_string(), "Blue Yeti USB".to_string(), "USB Mic 2".to_string()];
    let rec = AudioRecorder::new(Some("NonExistentMicrophone_XYZ_12345".into()));
    assert_eq!(rec.select_device(&names), DeviceChoice::Fallback);
    let rec = AudioRecorder::new(Some("usb".into()));
    assert_eq!(rec.select_device(&names), DeviceChoice::Matched(1));
    let rec = AudioRecorder::new(None);
    assert_eq!(rec.select_device(&names), DeviceChoice::SystemDefault);
    let rec = AudioRecorder::new(Some("x".into()));
    assert_eq!(rec.select_device(&Vec::new()), DeviceChoice::Fallback);
}

#[test]
fn recording_names() {
    let (wav, txt) = recording_file_names("20260907_220000", 7);
    assert_eq!(wav, "whisper_20260907_220000_007.wav");
    assert_eq!(txt, "whisper_20260907_220000_007.txt");
}

fn timing(enabled: bool) -> VadTiming {
    VadTiming { enabled, silence_timeout_ms: 100, min_speech_duration_ms: 50 }
}

#[test]
fn test_vad_disabled() {
    let mut vad = VadDetector::new(timing(false));
    assert!(!vad.is_enabled());
    assert_eq!(vad.process_chunk(ChunkLevel::Silence, 10_000), VadDecision::Continue);
}

#[test]
fn test_vad_speech_then_silence_timeout() {
    let mut vad = VadDetector::new(timing(true));
    assert_eq!(vad.process_chunk(ChunkLevel::Silence, 0), VadDecision::Continue);
    assert!(!vad.has_detected_speech());
    assert_eq!(vad.process_chunk(ChunkLevel::Speech, 0), VadDecision::Continue);
    assert!(vad.has_detected_speech());
    assert_eq!(vad.process_chunk(ChunkLevel::Speech, 60), VadDecision::Continue);
    assert_eq!(vad.process_chunk(ChunkLevel::Silence, 100), VadDecision::Continue);
    assert_eq!(vad.process_chunk(ChunkLevel::Empty, 500), VadDecision::Continue);
    assert_eq!(vad.process_chunk(ChunkLevel::Silence, 160), VadDecision::SilenceTimeout);
}

#[test]
fn short_speech_never_times_out() {
    let mut vad = VadDetector::new(timing(true));
    vad.process_chunk(ChunkLevel::Speech, 1000);
    assert_eq!(vad.process_chunk(ChunkLevel::Silence, 1040), VadDecision::Continue);
    assert_eq!(vad.process_chunk(ChunkLevel::Silence, 5000), VadDecision::SilenceTimeout);
}

#[test]
fn test_vad_reset() {
    let mut vad = VadDetector::new(timing(true));
    vad.process_chunk(ChunkLevel::Speech, 0);
    assert!(vad.has_detected_speech());
    vad.reset();
    assert!(!vad.has_detected_speech());
    assert_eq!(vad.process_chunk(ChunkLevel::Silence, 10_000), VadDecision::Continue);
}

#[test]
fn recording_wav_is_a_16k_mono_pcm_file() {
    let bytes = recording_wav(&[1, -2]);
    let mut expected: Vec<u8> = Vec::new();
    expected.extend_from_slice(b"RIFF");
    expected.extend_from_slice(&40u32.to_le_bytes());
    expected.extend_from_slice(b"WAVEfmt ");
    expected.extend_from_slice(&16u32.to_le_bytes());
    expected.extend_from_slice(&1u16.to_le_bytes());
    expected.extend_from_slice(&1u16.to_le_bytes());
    expected.extend_from_slice(&16000u32.to_le_bytes());
    expected.extend_from_slice(&32000u32.to_le_bytes());
    expected.extend_from_slice(&2u16.to_le_bytes());
    expected.extend_from_slice(&16u16.to_le_bytes());
    expected.extend_from_slice(b"data");
    expected.extend_from_slice(&4u32.to_le_bytes());
    expected.extend_from_slice(&[0x01, 0x00, 0xFE, 0xFF]);
    assert_eq!(bytes, expected);
    assert_eq!(recording_wav(&[]).len(), 44);
}
