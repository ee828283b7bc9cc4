//! Audio: the WAV container for recorded speech and the recording buffer's
//! state.

pub mod wav;
pub mod recorder;
