//! Error taxonomy of the library.
//!
//! Each kind carries a human-readable message and maps to a distinct
//! negative integer code for foreign callers.

use vstd::prelude::*;

verus! {

/// Errors that can occur during transcription operations.
#[derive(Debug, Clone, PartialEq, Eq)]
pub enum WhisperError {
    /// Failed to load the model.
    ModelLoadError(String),
    /// Failed to initialize the transcription context.
    ContextInitError(String),
    /// Audio processing error.
    AudioError(String),
    /// Transcription failed.
    TranscriptionError(String),
    /// Invalid configuration.
    ConfigError(String),
    /// File I/O error, carried as the failure's message.
    IoError(String),
    /// Model not found at the resolved path (the payload).
    ModelNotFound(String),
    /// Unsupported audio format.
    UnsupportedFormat(String),
    /// Recording device error.
    DeviceError(String),
    /// Error when crossing the foreign-function boundary.
    FfiError(String),
}

impl WhisperError {
    /// The negative integer code of each error kind.
    pub open spec fn spec_error_code(&self) -> i32 {
        match self {
            WhisperError::ModelLoadError(_) => -1i32,
            WhisperError::ContextInitError(_) => -2i32,
            WhisperError::AudioError(_) => -3i32,
            WhisperError::TranscriptionError(_) => -4i32,
            WhisperError::ConfigError(_) => -5i32,
            WhisperError::IoError(_) => -6i32,
            WhisperError::ModelNotFound(_) => -7i32,
            WhisperError::UnsupportedFormat(_) => -8i32,
            WhisperError::DeviceError(_) => -9i32,
            WhisperError::FfiError(_) => -10i32,
        }
    }

    /// Returns an error code for foreign-boundary communication.
    pub fn error_code(&self) -> (code: i32)
        ensures
            code == self.spec_error_code(),
    {
        match self {
            WhisperError::ModelLoadError(_) => -1,
            WhisperError::ContextInitError(_) => -2,
            WhisperError::AudioError(_) => -3,
            WhisperError::TranscriptionError(_) => -4,
            WhisperError::ConfigError(_) => -5,
            WhisperError::IoError(_) => -6,
            WhisperError::ModelNotFound(_) => -7,
            WhisperError::UnsupportedFormat(_) => -8,
            WhisperError::DeviceError(_) => -9,
            WhisperError::FfiError(_) => -10,
        }
    }

    /// The human-readable message of each error kind: a fixed prefix
    /// naming the kind, followed by the carried detail.
    pub open spec fn spec_message(&self) -> Seq<char> {
        match self {
            WhisperError::ModelLoadError(s) => "Failed to load model: "@ + s@,
            WhisperError::ContextInitError(s) => "Failed to initialize context: "@ + s@,
            WhisperError::AudioError(s) => "Audio processing error: "@ + s@,
            WhisperError::TranscriptionError(s) => "Transcription failed: "@ + s@,
            WhisperError::ConfigError(s) => "Invalid configuration: "@ + s@,
            WhisperError::IoError(s) => "File I/O error: "@ + s@,
            WhisperError::ModelNotFound(s) => "Model not found: "@ + s@,
            WhisperError::UnsupportedFormat(s) => "Unsupported audio format: "@ + s@,
            WhisperError::DeviceError(s) => "Recording device error: "@ + s@,
            WhisperError::FfiError(s) => "FFI error: "@ + s@,
        }
    }

    /// Renders the error as a message string.
    pub fn message(&self) -> (m: String)
        ensures
            m@ == self.spec_message(),
    {
        match self {
            WhisperError::ModelLoadError(s) => String::from_str("Failed to load model: ").concat(s.as_str()),
            WhisperError::ContextInitError(s) => String::from_str("Failed to initialize context: ").concat(s.as_str()),
            WhisperError::AudioError(s) => String::from_str("Audio processing error: ").concat(s.as_str()),
            WhisperError::TranscriptionError(s) => String::from_str("Transcription failed: ").concat(s.as_str()),
            WhisperError::ConfigError(s) => String::from_str("Invalid configuration: ").concat(s.as_str()),
            WhisperError::IoError(s) => String::from_str("File I/O error: ").concat(s.as_str()),
            WhisperError::ModelNotFound(s) => String::from_str("Model not found: ").concat(s.as_str()),
            WhisperError::UnsupportedFormat(s) => String::from_str("Unsupported audio format: ").concat(s.as_str()),
            WhisperError::DeviceError(s) => String::from_str("Recording device error: ").concat(s.as_str()),
            WhisperError::FfiError(s) => String::from_str("FFI error: ").concat(s.as_str()),
        }
    }
}

} // verus!
