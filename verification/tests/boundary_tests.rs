use whisper_core::config::ModelSize;
use whisper_core::error::WhisperError;
use whisper_core::marshal::{
    ResultRecord, WhisperResultCode, config_from_foreign, init_result_code, model_size_from_code,
    transcription_failure_record, version,
};
use whisper_core::transcription::{TranscriptionEngine, TranscriptionResult, require_model_present};
use whisper_core::WhisperConfig;

#[test]
fn test_result_codes() {
    assert_eq!(WhisperResultCode::Success.code(), 0);
    assert_eq!(WhisperResultCode::Error.code(), -1);
    assert_eq!(WhisperResultCode::ModelNotFound.code(), -2);
    assert_eq!(WhisperResultCode::NotInitialized.code(), -3);
    assert_eq!(WhisperResultCode::InvalidParameter.code(), -4);
    assert_eq!(WhisperResultCode::TranscriptionFailed.code(), -5);
}

#[test]
fn test_model_size_codes() {
    assert_eq!(model_size_from_code(0), ModelSize::Tiny);
    assert_eq!(model_size_from_code(3), ModelSize::Medium);
    assert_eq!(model_size_from_code(7), ModelSize::LargeV3Turbo);
    assert_eq!(model_size_from_code(8), ModelSize::Base);
    assert_eq!(model_size_from_code(-1), ModelSize::Base);
}

#[test]
fn test_config_from_foreign_defaults() {
    let c = config_from_foreign(None, 2, None, true, 6, false);
    assert_eq!(c.model_path, "");
    assert_eq!(c.model_size, ModelSize::Small);
    assert_eq!(c.language.source, "auto");
    assert!(c.language.translate_to_english);
    assert_eq!(c.n_threads, 6);
    assert!(!c.use_gpu);
    assert!(c.flash_attention);
    assert_eq!(c.vad_threshold, 500);
}

#[test]
fn test_config_from_foreign_explicit_strings() {
    let c = config_from_foreign(
        Some("/models/x.bin".to_string()),
        0,
        Some("ja".to_string()),
        false,
        0,
        true,
    );
    assert_eq!(c.model_path, "/models/x.bin");
    assert_eq!(c.language.source, "ja");
    assert_eq!(c.model_size, ModelSize::Tiny);
}

#[test]
fn test_success_record_carries_result() {
    let t = TranscriptionResult {
        text: "hi".to_string(),
        segments: vec![],
        language: "en".to_string(),
        processing_time_ms: 12,
        audio_duration_ms: 34,
    };
    let r = ResultRecord::success(&t);
    assert_eq!(r.text.as_deref(), Some("hi"));
    assert_eq!(r.language.as_deref(), Some("en"));
    assert_eq!(r.segment_count, 0);
    assert_eq!(r.processing_time_ms, 12);
    assert_eq!(r.audio_duration_ms, 34);
    assert_eq!(r.result_code, WhisperResultCode::Success);
    assert!(r.error_message.is_none());
}

#[test]
fn test_failure_record_carries_message() {
    let e = WhisperError::TranscriptionError("backend failed".to_string());
    let r = transcription_failure_record(&e);
    assert_eq!(r.result_code, WhisperResultCode::TranscriptionFailed);
    assert_eq!(r.error_message.as_deref(), Some("Transcription failed: backend failed"));
    assert!(r.text.is_none());
    assert!(r.language.is_none());
}

#[test]
fn test_release_is_idempotent() {
    let t = TranscriptionResult {
        text: "words".to_string(),
        segments: vec![],
        language: "en".to_string(),
        processing_time_ms: 1,
        audio_duration_ms: 2,
    };
    let mut r = ResultRecord::success(&t);
    r.release();
    assert!(r.text.is_none());
    assert!(r.language.is_none());
    assert!(r.error_message.is_none());
    assert_eq!(r.processing_time_ms, 1);
    assert_eq!(r.audio_duration_ms, 2);
    // Releasing a record whose strings are already null is safe and
    // changes nothing.
    r.release();
    assert!(r.text.is_none());
    assert!(r.language.is_none());
    assert!(r.error_message.is_none());
    assert_eq!(r.result_code, WhisperResultCode::Success);
}

#[test]
fn test_release_on_default_record() {
    let mut r = ResultRecord::default();
    r.release();
    assert!(r.text.is_none());
    assert!(r.error_message.is_none());
}

#[test]
fn test_init_result_codes() {
    assert_eq!(init_result_code(&Ok(())), WhisperResultCode::Success);
    assert_eq!(
        init_result_code(&Err(WhisperError::ModelNotFound("p".to_string()))),
        WhisperResultCode::ModelNotFound
    );
    assert_eq!(
        init_result_code(&Err(WhisperError::ContextInitError("x".to_string()))),
        WhisperResultCode::Error
    );
}

#[test]
fn test_missing_default_model_maps_to_model_not_found_code() {
    // A config with an empty model path derives the default location;
    // when that file does not exist, initialization fails with the
    // model-not-found kind and the boundary reports its code.
    let engine = TranscriptionEngine::new(WhisperConfig::with_model_size(ModelSize::Base));
    let path = engine.resolve_model_path(Some("/nonexistent-home")).unwrap();
    assert!(path.ends_with("ggml-base.bin"));
    let outcome = require_model_present(path, false).map(|_| ());
    assert!(matches!(outcome, Err(WhisperError::ModelNotFound(_))));
    let code = init_result_code(&outcome);
    assert_eq!(code, WhisperResultCode::ModelNotFound);
    assert_eq!(code.code(), -2);
}

#[test]
fn test_version() {
    assert_eq!(version(), "0.1.0");
}

#[test]
fn test_trim_and_blank() {
    assert_eq!(whisper_core::text::trim_text("  hello world \n"), "hello world");
    assert_eq!(whisper_core::text::trim_text(""), "");
    assert_eq!(whisper_core::text::trim_text(" \t "), "");
    assert!(whisper_core::text::is_blank("  \t\r\n"));
    assert!(whisper_core::text::is_blank(""));
    assert!(!whisper_core::text::is_blank(" a "));
}
