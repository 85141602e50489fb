//! Core of a speech-recognition front end: audio-buffer processing
//! (resampling, normalization, noise gating, stereo mixdown), the
//! transcription engine's state machine and result assembly, and the
//! decision logic of the foreign-call boundary.
//!
//! Samples are carried as Q15 fixed-point amplitudes: the integer 32768
//! stands for full scale (1.0), -32768 for -1.0.

pub mod audio;
pub mod config;
pub mod error;
pub mod marshal;
pub mod text;
pub mod transcription;

pub use config::WhisperConfig;
pub use error::WhisperError;
pub use transcription::{TranscriptionEngine, TranscriptionResult, Segment};
