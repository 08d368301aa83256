//! In-memory WAV encoding of a finished recording: 16-bit PCM samples become
//! the bytes of a WAV file without touching the disk.
use vstd::prelude::*;

verus! {

/// The bytes `hound::WavWriter` writes for 16-bit integer PCM `samples`
/// (interleaved over `channels`) at `sample_rate`: the RIFF/WAVE header with a
/// PCM format chunk, then the samples.
pub uninterp spec fn pcm16_wav_bytes(samples: Seq<i16>, channels: u16, sample_rate: u32) -> Seq<u8>;

/// Encodes the samples with `hound::WavWriter` into an in-memory
/// `Cursor<Vec<u8>>` (16 bits per sample, integer format) and finalizes it.
/// The bytes are the named encoding: hound writes a 44-byte header for at most
/// two channels of 16-bit audio, then two bytes per sample. Within the
/// `requires` nothing fails: writes to a `Vec` cannot fail, the byte rate and
/// the size fields fit their `u32`s, the sample rate hound divides by is not
/// zero, and `finalize` reports an error only when the sample count is not a
/// multiple of the channel count.
#[verifier::external_body]
fn encode_pcm16_wav(samples: &[i16], channels: u16, sample_rate: u32) -> (r: Result<Vec<u8>, String>)
    requires
        1 <= channels <= 2,
        samples@.len() % (channels as nat) == 0,
        0 < sample_rate,
        2 * channels * sample_rate <= u32::MAX,
        36 + 2 * samples@.len() <= u32::MAX,
    ensures
        match r {
            Ok(v) => v@ == pcm16_wav_bytes(samples@, channels, sample_rate) && v@.len() == 44 + 2
                * samples@.len(),
            Err(_) => false,
        },
{
    let spec = hound::WavSpec { channels, sample_rate, bits_per_sample: 16, sample_format: hound::SampleFormat::Int };
    let mut buffer = std::io::Cursor::new(Vec::new());
    let mut writer = hound::WavWriter::new(&mut buffer, spec).map_err(|e| e.to_string())?;
    for &s in samples {
        writer.write_sample(s).map_err(|e| e.to_string())?;
    }
    writer.finalize().map_err(|e| e.to_string())?;
    Ok(buffer.into_inner())
}

/// The channel count of the audio sent for transcription: mono.
pub const RECORDING_CHANNELS: u16 = 1;

/// The sample rate of the audio sent for transcription: 16 kHz.
pub const RECORDING_SAMPLE_RATE: u32 = 16000;

/// The WAV file of a finished recording, resampled to 16 kHz mono 16-bit
/// samples, encoded in memory.
pub fn recording_wav(pcm_16k: &[i16]) -> (r: Vec<u8>)
    requires
        36 + 2 * pcm_16k@.len() <= u32::MAX,
    ensures
        r@ == pcm16_wav_bytes(pcm_16k@, RECORDING_CHANNELS, RECORDING_SAMPLE_RATE),
        r@.len() == 44 + 2 * pcm_16k@.len(),
{
    match encode_pcm16_wav(pcm_16k, RECORDING_CHANNELS, RECORDING_SAMPLE_RATE) {
        Ok(v) => v,
        Err(_) => Vec::new(),
    }
}

} // verus!
