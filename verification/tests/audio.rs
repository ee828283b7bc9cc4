use voice_typing::audio::recorder::{plan_wav_conversion, AudioError, RecordingState, WavPlan};
use voice_typing::audio::wav::encode_wav;

/// The 16-bit value a float sample in [-1, 1] is written as (clamped).
fn to_pcm(x: f32) -> i16 {
    (x.clamp(-1.0, 1.0) * i16::MAX as f32) as i16
}

#[test]
fn test_encode_wav_basic() {
    // One second of silence at 16 kHz.
    let samples = vec![to_pcm(0.0f32); 16000];
    let wav_data = encode_wav(&samples, 16000).unwrap();
    assert_eq!(wav_data.len(), 44 + 16000 * 2);
    assert_eq!(&wav_data[0..4], b"RIFF");
    assert_eq!(&wav_data[8..12], b"WAVE");
}

#[test]
fn test_encode_wav_sine_wave() {
    let sample_rate = 16000;
    let duration_secs = 0.1;
    let num_samples = (sample_rate as f32 * duration_secs) as usize;
    let freq = 440.0;
    let samples: Vec<i16> = (0..num_samples)
        .map(|i| {
            let t = i as f32 / sample_rate as f32;
            to_pcm((2.0 * std::f32::consts::PI * freq * t).sin())
        })
        .collect();
    let wav_data = encode_wav(&samples, sample_rate).unwrap();
    assert_eq!(wav_data.len(), 44 + num_samples * 2);
}

#[test]
fn test_encode_wav_clamps_values() {
    let samples: Vec<i16> = vec![-2.0f32, -1.0, 0.0, 1.0, 2.0].into_iter().map(to_pcm).collect();
    let wav_data = encode_wav(&samples, 16000).unwrap();
    assert_eq!(wav_data.len(), 44 + 5 * 2);
    assert_eq!(&wav_data[44..46], &(-32767i16).to_le_bytes());
    assert_eq!(&wav_data[52..54], &32767i16.to_le_bytes());
}

#[test]
fn test_encode_wav_empty() {
    let samples: Vec<i16> = vec![];
    let wav_data = encode_wav(&samples, 16000).unwrap();
    assert_eq!(wav_data.len(), 44);
}

#[test]
fn wav_header_fields() {
    let wav = encode_wav(&[1, -1, 256], 16000).unwrap();
    let expected: Vec<u8> = [
        &b"RIFF"[..],
        &(36u32 + 6).to_le_bytes(),
        b"WAVE",
        b"fmt ",
        &16u32.to_le_bytes(),
        &1u16.to_le_bytes(),
        &1u16.to_le_bytes(),
        &16000u32.to_le_bytes(),
        &32000u32.to_le_bytes(),
        &2u16.to_le_bytes(),
        &16u16.to_le_bytes(),
        b"data",
        &6u32.to_le_bytes(),
        &[1, 0, 0xff, 0xff, 0, 1],
    ]
    .concat();
    assert_eq!(wav, expected);
}

#[test]
fn recording_keeps_samples_only_while_recording() {
    let mut r: RecordingState<i16> = RecordingState::new();
    assert!(!r.is_recording());
    r.push_samples(&[1, 2]);
    assert!(r.samples().is_empty());
    r.start();
    r.push_samples(&[1, 2]);
    r.push_samples(&[3]);
    assert_eq!(r.samples(), vec![1, 2, 3]);
    r.stop();
    r.push_samples(&[4]);
    assert_eq!(r.samples(), vec![1, 2, 3]);
    assert!(!r.is_recording());
    r.start();
    assert!(r.samples().is_empty());
    assert!(r.is_recording());
}

#[test]
fn wav_conversion_plan() {
    assert!(matches!(plan_wav_conversion(0, 2, 48000), Err(AudioError::NoData)));
    assert_eq!(plan_wav_conversion(10, 2, 48000).unwrap(), WavPlan { mix_to_mono: true, resample: true });
    assert_eq!(plan_wav_conversion(10, 1, 16000).unwrap(), WavPlan { mix_to_mono: false, resample: false });
}

#[test]
fn audio_error_messages() {
    assert_eq!(AudioError::NoInputDevice.message(), "No input device found");
    assert_eq!(AudioError::NoData.message(), "No audio data recorded");
    assert_eq!(AudioError::ConfigError("x".into()).message(), "Audio configuration error: x");
    assert_eq!(AudioError::StreamError("y".into()).message(), "Audio stream error: y");
    assert_eq!(AudioError::EncodingError("z".into()).message(), "Audio encoding error: z");
}
