//! The recording buffer's state (which samples the microphone callback keeps)
//! and the decisions that turn a recording into a 16 kHz mono WAV file.

use vstd::prelude::*;

verus! {

/// Target sample rate for speech recognition.
pub const TARGET_SAMPLE_RATE: u32 = 16000;

/// Abstract state of a recording: the samples kept so far and whether the
/// microphone callback is currently recording.
pub struct RecordingModel<S> {
    pub samples: Seq<S>,
    pub recording: bool,
}

/// The state after `start`: previous samples cleared, recording on.
pub open spec fn model_start<S>(m: RecordingModel<S>) -> RecordingModel<S> {
    RecordingModel { samples: Seq::empty(), recording: true }
}

/// The state after `stop`: samples kept, recording off.
pub open spec fn model_stop<S>(m: RecordingModel<S>) -> RecordingModel<S> {
    RecordingModel { samples: m.samples, recording: false }
}

/// The state after the callback delivers `data`: appended while recording,
/// ignored otherwise.
pub open spec fn model_push<S>(m: RecordingModel<S>, data: Seq<S>) -> RecordingModel<S> {
    if m.recording {
        RecordingModel { samples: m.samples + data, recording: true }
    } else {
        m
    }
}

/// The state after the callback delivers each chunk in turn.
pub open spec fn model_push_all<S>(m: RecordingModel<S>, chunks: Seq<Seq<S>>) -> RecordingModel<S>
    decreases chunks.len(),
{
    if chunks.len() == 0 {
        m
    } else {
        model_push_all(model_push(m, chunks[0]), chunks.drop_first())
    }
}

/// All chunks, concatenated in order.
pub open spec fn concat_all<S>(chunks: Seq<Seq<S>>) -> Seq<S>
    decreases chunks.len(),
{
    if chunks.len() == 0 {
        Seq::empty()
    } else {
        chunks[0] + concat_all(chunks.drop_first())
    }
}

/// Recording buffer contents: the samples captured since the last `start`,
/// and the recording flag. Samples are kept only while recording.
pub struct RecordingState<S> {
    samples: Vec<S>,
    is_recording: bool,
}

impl<S: Copy> RecordingState<S> {
    /// The abstract state.
    pub closed spec fn model(&self) -> RecordingModel<S> {
        RecordingModel { samples: self.samples@, recording: self.is_recording }
    }

    /// An empty buffer that is not recording.
    pub fn new() -> (r: Self)
        ensures
            r.model() == (RecordingModel::<S> { samples: Seq::empty(), recording: false }),
    {
        RecordingState { samples: Vec::new(), is_recording: false }
    }

    /// Mark recording as active and clear previous samples.
    pub fn start(&mut self)
        ensures
            final(self).model() == model_start(old(self).model()),
    {
        self.samples.clear();
        self.is_recording = true;
    }

    /// Mark recording as stopped; the samples stay.
    pub fn stop(&mut self)
        ensures
            final(self).model() == model_stop(old(self).model()),
    {
        self.is_recording = false;
    }

    /// Whether the buffer is currently recording.
    pub fn is_recording(&self) -> (r: bool)
        ensures
            r == self.model().recording,
    {
        self.is_recording
    }

    /// A copy of the recorded samples.
    pub fn samples(&self) -> (r: Vec<S>)
        ensures
            r@ == self.model().samples,
    {
        let mut r: Vec<S> = Vec::new();
        let mut i: usize = 0;
        while i < self.samples.len()
            invariant
                i <= self.samples@.len(),
                r@ == self.samples@.subrange(0, i as int),
            decreases self.samples@.len() - i,
        {
            r.push(self.samples[i]);
            i = i + 1;
        }
        r
    }

    /// Push samples delivered by the audio callback: kept while recording,
    /// dropped otherwise.
    pub fn push_samples(&mut self, data: &[S])
        ensures
            final(self).model() == model_push(old(self).model(), data@),
    {
        if self.is_recording {
            let ghost before = self.samples@;
            let mut i: usize = 0;
            while i < data.len()
                invariant
                    i <= data@.len(),
                    self.is_recording,
                    self.samples@ == before + data@.subrange(0, i as int),
                decreases data@.len() - i,
            {
                self.samples.push(data[i]);
                i = i + 1;
            }
            assert(data@.subrange(0, data@.len() as int) =~= data@);
        }
    }
}

/// After `start`, the buffer holds exactly the chunks the callback delivered
/// since, concatenated in order, whatever it held before.
pub proof fn lemma_start_then_pushes<S>(m: RecordingModel<S>, chunks: Seq<Seq<S>>)
    ensures
        model_push_all(model_start(m), chunks).samples == concat_all(chunks),
        model_push_all(model_start(m), chunks).recording,
{
    lemma_pushes_append(model_start(m), chunks);
}

/// While recording, delivering chunks appends their concatenation.
pub proof fn lemma_pushes_append<S>(m: RecordingModel<S>, chunks: Seq<Seq<S>>)
    requires
        m.recording,
    ensures
        model_push_all(m, chunks).samples == m.samples + concat_all(chunks),
        model_push_all(m, chunks).recording,
    decreases chunks.len(),
{
    if chunks.len() > 0 {
        lemma_pushes_append(model_push(m, chunks[0]), chunks.drop_first());
        assert(m.samples + chunks[0] + concat_all(chunks.drop_first()) =~= m.samples + (chunks[0]
            + concat_all(chunks.drop_first())));
    } else {
        assert(m.samples + Seq::<S>::empty() =~= m.samples);
    }
}

/// After `stop`, whatever the callback delivers is ignored: the recorded
/// samples stay as they were until the next `start`.
pub proof fn lemma_stop_freezes<S>(m: RecordingModel<S>, chunks: Seq<Seq<S>>)
    ensures
        model_push_all(model_stop(m), chunks) == model_stop(m),
    decreases chunks.len(),
{
    if chunks.len() > 0 {
        lemma_stop_freezes(m, chunks.drop_first());
    }
}

/// Errors that can occur during audio recording.
#[derive(Debug)]
pub enum AudioError {
    /// No input device found.
    NoInputDevice,
    /// Audio configuration error.
    ConfigError(String),
    /// Audio stream error.
    StreamError(String),
    /// No audio data recorded.
    NoData,
    /// Audio encoding error.
    EncodingError(String),
}

/// The user-facing message of an audio error.
pub open spec fn audio_error_message(e: AudioError) -> Seq<char> {
    match e {
        AudioError::NoInputDevice => "No input device found"@,
        AudioError::ConfigError(m) => "Audio configuration error: "@ + m@,
        AudioError::StreamError(m) => "Audio stream error: "@ + m@,
        AudioError::NoData => "No audio data recorded"@,
        AudioError::EncodingError(m) => "Audio encoding error: "@ + m@,
    }
}

impl AudioError {
    /// The user-facing message of the error.
    pub fn message(&self) -> (r: String)
        ensures
            r@ == audio_error_message(*self),
    {
        match self {
            AudioError::NoInputDevice => String::from_str("No input device found"),
            AudioError::ConfigError(m) => {
                let mut s = String::from_str("Audio configuration error: ");
                s.append(m.as_str());
                s
            },
            AudioError::StreamError(m) => {
                let mut s = String::from_str("Audio stream error: ");
                s.append(m.as_str());
                s
            },
            AudioError::NoData => String::from_str("No audio data recorded"),
            AudioError::EncodingError(m) => {
                let mut s = String::from_str("Audio encoding error: ");
                s.append(m.as_str());
                s
            },
        }
    }
}

/// How a recording must be converted before it is encoded at 16 kHz mono.
#[derive(Clone, Copy, Debug, PartialEq, Eq, Structural)]
pub struct WavPlan {
    /// The device delivers several interleaved channels: average each frame.
    pub mix_to_mono: bool,
    /// The device rate differs from 16 kHz: resample.
    pub resample: bool,
}

/// Decide how to turn the recorded samples into 16 kHz mono audio: no
/// samples is `NoData`; otherwise mix when the device has more than one
/// channel and resample when its rate is not 16 kHz.
pub fn plan_wav_conversion(sample_count: usize, device_channels: u16, device_sample_rate: u32) -> (r:
    Result<WavPlan, AudioError>)
    ensures
        sample_count == 0 ==> r matches Err(AudioError::NoData),
        sample_count > 0 ==> r == Ok::<WavPlan, AudioError>(
            WavPlan { mix_to_mono: device_channels > 1, resample: device_sample_rate != 16000 },
        ),
{
    if sample_count == 0 {
        return Err(AudioError::NoData);
    }
    Ok(
        WavPlan {
            mix_to_mono: device_channels > 1,
            resample: device_sample_rate != TARGET_SAMPLE_RATE,
        },
    )
}

} // verus!
