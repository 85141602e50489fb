//! Decision logic of the foreign-call boundary: converting the flat
//! foreign configuration record into the internal configuration,
//! mapping results and errors to result codes, and the release
//! discipline of the strings a result record carries.
//!
//! The unsafe pointer surface itself lives in the surrounding runtime;
//! a [`ResultRecord`] holds each allocated string as an `Option`, where
//! `None` stands for a null pointer.

use vstd::prelude::*;
use crate::config::{LanguageConfig, ModelSize, WhisperConfig};
use crate::error::WhisperError;
use crate::transcription::TranscriptionResult;

verus! {

/// Result codes for foreign-boundary functions.
#[derive(Debug, Clone, Copy, PartialEq, Eq, Structural)]
pub enum WhisperResultCode {
    /// Operation succeeded.
    Success,
    /// Generic error.
    Error,
    /// Model not found.
    ModelNotFound,
    /// Engine not initialized.
    NotInitialized,
    /// Invalid parameter.
    InvalidParameter,
    /// Transcription failed.
    TranscriptionFailed,
}

impl WhisperResultCode {
    /// The integer each code crosses the boundary as.
    pub open spec fn spec_code(&self) -> i32 {
        match self {
            WhisperResultCode::Success => 0i32,
            WhisperResultCode::Error => -1i32,
            WhisperResultCode::ModelNotFound => -2i32,
            WhisperResultCode::NotInitialized => -3i32,
            WhisperResultCode::InvalidParameter => -4i32,
            WhisperResultCode::TranscriptionFailed => -5i32,
        }
    }

    /// Returns the code's integer value for the foreign caller.
    pub fn code(&self) -> (c: i32)
        ensures
            c == self.spec_code(),
    {
        match self {
            WhisperResultCode::Success => 0,
            WhisperResultCode::Error => -1,
            WhisperResultCode::ModelNotFound => -2,
            WhisperResultCode::NotInitialized => -3,
            WhisperResultCode::InvalidParameter => -4,
            WhisperResultCode::TranscriptionFailed => -5,
        }
    }
}

/// The model size a foreign integer code selects; unrecognized codes
/// fall back to the baseline size rather than failing.
pub open spec fn spec_model_size_from_code(code: i32) -> ModelSize {
    if code == 0 {
        ModelSize::Tiny
    } else if code == 1 {
        ModelSize::Base
    } else if code == 2 {
        ModelSize::Small
    } else if code == 3 {
        ModelSize::Medium
    } else if code == 4 {
        ModelSize::Large
    } else if code == 5 {
        ModelSize::LargeV2
    } else if code == 6 {
        ModelSize::LargeV3
    } else if code == 7 {
        ModelSize::LargeV3Turbo
    } else {
        ModelSize::Base
    }
}

/// Selects the model size for a foreign code.
pub fn model_size_from_code(code: i32) -> (m: ModelSize)
    ensures
        m == spec_model_size_from_code(code),
{
    match code {
        0 => ModelSize::Tiny,
        1 => ModelSize::Base,
        2 => ModelSize::Small,
        3 => ModelSize::Medium,
        4 => ModelSize::Large,
        5 => ModelSize::LargeV2,
        6 => ModelSize::LargeV3,
        7 => ModelSize::LargeV3Turbo,
        _ => ModelSize::Base,
    }
}

/// Builds the internal configuration from the flat foreign record: a
/// missing path stays empty (so the default path is derived later), a
/// missing or malformed language falls back to auto-detection, and
/// every setting the record does not carry keeps its built-in default.
pub fn config_from_foreign(
    model_path: Option<String>,
    model_size_code: i32,
    language: Option<String>,
    translate: bool,
    n_threads: u32,
    use_gpu: bool,
) -> (c: WhisperConfig)
    ensures
        c.model_path@ == match model_path {
            Some(p) => p@,
            None => Seq::<char>::empty(),
        },
        c.model_size == spec_model_size_from_code(model_size_code),
        c.language.source@ == match language {
            Some(l) => l@,
            None => "auto"@,
        },
        c.language.translate_to_english == translate,
        c.n_threads == n_threads,
        c.use_gpu == use_gpu,
        c.flash_attention,
        c.max_duration_seconds == 300u32,
        c.temperature == 0u32,
        !c.word_timestamps,
        c.max_segment_length == 0u32,
        c.vad_enabled,
        c.vad_threshold == 500u32,
{
    let mut c = WhisperConfig::default();
    c.model_path = match model_path {
        Some(p) => p,
        None => String::new(),
    };
    c.model_size = model_size_from_code(model_size_code);
    c.language = LanguageConfig {
        source: match language {
            Some(l) => l,
            None => String::from_str("auto"),
        },
        translate_to_english: translate,
    };
    c.n_threads = n_threads;
    c.use_gpu = use_gpu;
    c
}

/// A transcription result marshaled for the foreign caller. Each
/// `Option<String>` stands for a string pointer the boundary
/// allocates; `None` stands for a null pointer.
#[derive(Debug)]
pub struct ResultRecord {
    /// Transcribed text.
    pub text: Option<String>,
    /// Detected language code.
    pub language: Option<String>,
    /// Number of segments.
    pub segment_count: i32,
    /// Processing time in milliseconds.
    pub processing_time_ms: u64,
    /// Audio duration in milliseconds.
    pub audio_duration_ms: u64,
    /// Result code.
    pub result_code: WhisperResultCode,
    /// Error message if the code is not success.
    pub error_message: Option<String>,
}

impl Default for ResultRecord {
    /// An empty success record: every string null, counts zero.
    fn default() -> (r: Self)
        ensures
            r.text is None,
            r.language is None,
            r.segment_count == 0i32,
            r.processing_time_ms == 0u64,
            r.audio_duration_ms == 0u64,
            r.result_code == WhisperResultCode::Success,
            r.error_message is None,
    {
        ResultRecord {
            text: None,
            language: None,
            segment_count: 0,
            processing_time_ms: 0,
            audio_duration_ms: 0,
            result_code: WhisperResultCode::Success,
            error_message: None,
        }
    }
}

/// The record with every string field released (nulled); the other
/// fields keep their values.
pub open spec fn spec_released(r: ResultRecord) -> ResultRecord {
    ResultRecord { text: None, language: None, error_message: None, ..r }
}

impl ResultRecord {
    /// The record reporting a completed transcription.
    pub fn success(t: &TranscriptionResult) -> (r: ResultRecord)
        requires
            t.segments@.len() <= i32::MAX,
        ensures
            r.text is Some && r.text->0@ == t.text@,
            r.language is Some && r.language->0@ == t.language@,
            r.segment_count == t.segments@.len(),
            r.processing_time_ms == t.processing_time_ms,
            r.audio_duration_ms == t.audio_duration_ms,
            r.result_code == WhisperResultCode::Success,
            r.error_message is None,
    {
        ResultRecord {
            text: Some(t.text.clone()),
            language: Some(t.language.clone()),
            segment_count: t.segments.len() as i32,
            processing_time_ms: t.processing_time_ms,
            audio_duration_ms: t.audio_duration_ms,
            result_code: WhisperResultCode::Success,
            error_message: None,
        }
    }

    /// The record reporting a failure: the given code and message,
    /// no payload.
    pub fn failure(code: WhisperResultCode, message: String) -> (r: ResultRecord)
        ensures
            r.text is None,
            r.language is None,
            r.segment_count == 0i32,
            r.processing_time_ms == 0u64,
            r.audio_duration_ms == 0u64,
            r.result_code == code,
            r.error_message is Some && r.error_message->0@ == message@,
    {
        ResultRecord {
            text: None,
            language: None,
            segment_count: 0,
            processing_time_ms: 0,
            audio_duration_ms: 0,
            result_code: code,
            error_message: Some(message),
        }
    }

    /// Releases every string the record carries and nulls it; the
    /// remaining fields are untouched. Safe on a record whose strings
    /// are already null.
    pub fn release(&mut self)
        ensures
            *final(self) == spec_released(*old(self)),
    {
        self.text = None;
        self.language = None;
        self.error_message = None;
    }
}

/// Releasing a record a second time changes nothing: release is
/// idempotent, so a record whose string fields are already null is
/// safe to release again.
pub proof fn lemma_release_idempotent(r: ResultRecord)
    ensures
        spec_released(spec_released(r)) == spec_released(r),
{
}

/// The result code an initialization outcome maps to: success, the
/// model-not-found code for a missing model file, and the generic
/// error code for every other failure.
pub fn init_result_code(r: &Result<(), WhisperError>) -> (c: WhisperResultCode)
    ensures
        r is Ok ==> c == WhisperResultCode::Success,
        r is Err && r->Err_0 is ModelNotFound ==> c == WhisperResultCode::ModelNotFound,
        r is Err && !(r->Err_0 is ModelNotFound) ==> c == WhisperResultCode::Error,
{
    match r {
        Ok(_) => WhisperResultCode::Success,
        Err(WhisperError::ModelNotFound(_)) => WhisperResultCode::ModelNotFound,
        Err(_) => WhisperResultCode::Error,
    }
}

/// The record reporting a failed transcription: the failure code with
/// the error's rendered message.
pub fn transcription_failure_record(e: &WhisperError) -> (r: ResultRecord)
    ensures
        r.text is None,
        r.language is None,
        r.segment_count == 0i32,
        r.result_code == WhisperResultCode::TranscriptionFailed,
        r.error_message is Some && r.error_message->0@ == e.spec_message(),
{
    ResultRecord::failure(WhisperResultCode::TranscriptionFailed, e.message())
}

/// The library's version string.
pub fn version() -> (v: &'static str)
    ensures
        v@ == "0.1.0"@,
{
    "0.1.0"
}

} // verus!
