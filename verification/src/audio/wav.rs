//! 16-bit mono PCM WAV encoding, through the `hound` crate.

use vstd::prelude::*;

verus! {

/// Two bytes, little endian, of a value in `0..65536`.
pub open spec fn le16(x: int) -> Seq<u8> {
    seq![(x % 256) as u8, ((x / 256) % 256) as u8]
}

/// Four bytes, little endian, of a value in `0..2^32`.
pub open spec fn le32(x: int) -> Seq<u8> {
    seq![
        (x % 256) as u8,
        ((x / 256) % 256) as u8,
        ((x / 65536) % 256) as u8,
        ((x / 16777216) % 256) as u8,
    ]
}

/// The two's-complement bit pattern of a 16-bit sample, as an unsigned value.
pub open spec fn u16_bits(s: i16) -> int {
    if s < 0 { s + 65536 } else { s as int }
}

/// The data chunk's payload: each sample as two little-endian bytes.
pub open spec fn pcm16_data(s: Seq<i16>) -> Seq<u8>
    decreases s.len(),
{
    if s.len() == 0 {
        Seq::empty()
    } else {
        le16(u16_bits(s[0])) + pcm16_data(s.drop_first())
    }
}

/// The bytes of a mono, 16-bit integer PCM WAV file (RIFF header, 16-byte
/// `fmt ` chunk with format tag 1, `data` chunk) holding the samples.
pub open spec fn wav_mono16(sample_rate: u32, s: Seq<i16>) -> Seq<u8> {
    seq![82u8, 73u8, 70u8, 70u8]  // "RIFF"
     + le32(36 + 2 * s.len() as int)
     + seq![87u8, 65u8, 86u8, 69u8]  // "WAVE"
     + seq![102u8, 109u8, 116u8, 32u8]  // "fmt "
     + le32(16)
     + le16(1)  // integer PCM
     + le16(1)  // one channel
     + le32(sample_rate as int)
     + le32(2 * sample_rate as int)  // bytes per second
     + le16(2)  // block align
     + le16(16)  // bits per sample
     + seq![100u8, 97u8, 116u8, 97u8]  // "data"
     + le32(2 * s.len() as int)
     + pcm16_data(s)
}

/// The largest sample count whose file sizes still fit the RIFF size fields.
pub open spec fn max_wav_samples() -> int {
    (0xffff_ffff - 36) / 2
}

#[verifier::external_type_specification]
#[verifier::external_body]
pub struct ExHoundError(hound::Error);

/// Trusted: `hound::WavWriter::new`, `write_sample` and `finalize`, writing
/// into an in-memory `Cursor<Vec<u8>>` with a mono, 16-bit integer spec.
/// Claims, as hound's writer source shows for this spec (PCMWAVEFORMAT
/// header, writes into a growable in-memory buffer that cannot fail, one
/// channel so no unfinished sample), that the result is `Ok` with exactly the
/// WAV bytes of the samples. The `requires` excludes a zero rate (hound
/// divides by it) and sizes that overflow hound's `u32` counters.
#[verifier::external_body]
fn write_wav_mono16(samples: &[i16], sample_rate: u32) -> (r: Result<Vec<u8>, hound::Error>)
    requires
        0 < sample_rate <= 0x7fff_ffff,
        samples@.len() <= max_wav_samples(),
    ensures
        r is Ok,
        r->Ok_0@ == wav_mono16(sample_rate, samples@),
{
    let spec = hound::WavSpec {
        channels: 1,
        sample_rate,
        bits_per_sample: 16,
        sample_format: hound::SampleFormat::Int,
    };
    let mut buffer = std::io::Cursor::new(Vec::new());
    let mut writer = hound::WavWriter::new(&mut buffer, spec)?;
    for &sample in samples {
        writer.write_sample(sample)?;
    }
    writer.finalize()?;
    Ok(buffer.into_inner())
}

/// Encode 16-bit PCM samples as a mono WAV file at the given sample rate.
///
/// The result is always `Ok`: 44 header bytes followed by two little-endian
/// bytes per sample.
pub fn encode_wav(samples: &[i16], sample_rate: u32) -> (r: Result<Vec<u8>, String>)
    requires
        0 < sample_rate <= 0x7fff_ffff,
        samples@.len() <= max_wav_samples(),
    ensures
        r matches Ok(b) && b@ == wav_mono16(sample_rate, samples@),
{
    match write_wav_mono16(samples, sample_rate) {
        Ok(bytes) => Ok(bytes),
        Err(_) => Err(String::from_str("WAV write error")),
    }
}

/// Each sample takes two bytes of the data chunk.
pub proof fn lemma_pcm16_len(s: Seq<i16>)
    ensures
        pcm16_data(s).len() == 2 * s.len(),
    decreases s.len(),
{
    if s.len() > 0 {
        lemma_pcm16_len(s.drop_first());
    }
}

/// A WAV file of `n` samples is 44 header bytes plus two bytes per sample.
pub proof fn lemma_wav_len(sample_rate: u32, s: Seq<i16>)
    ensures
        wav_mono16(sample_rate, s).len() == 44 + 2 * s.len(),
{
    lemma_pcm16_len(s);
}

/// The file starts with "RIFF", carries "WAVE" at bytes 8..12 and "data" at
/// bytes 36..40, and its data chunk is the samples' bytes.
pub proof fn lemma_wav_layout(sample_rate: u32, s: Seq<i16>)
    ensures
        wav_mono16(sample_rate, s).subrange(0, 4) == seq![82u8, 73u8, 70u8, 70u8],
        wav_mono16(sample_rate, s).subrange(8, 12) == seq![87u8, 65u8, 86u8, 69u8],
        wav_mono16(sample_rate, s).subrange(36, 40) == seq![100u8, 97u8, 116u8, 97u8],
        wav_mono16(sample_rate, s).subrange(44, 44 + 2 * s.len() as int) == pcm16_data(s),
{
    lemma_wav_len(sample_rate, s);
    let w = wav_mono16(sample_rate, s);
    assert(w.subrange(0, 4) =~= seq![82u8, 73u8, 70u8, 70u8]);
    assert(w.subrange(8, 12) =~= seq![87u8, 65u8, 86u8, 69u8]);
    assert(w.subrange(36, 40) =~= seq![100u8, 97u8, 116u8, 97u8]);
    assert(w.subrange(44, 44 + 2 * s.len() as int) =~= pcm16_data(s));
}

} // verus!
