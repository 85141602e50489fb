use whisper_core::audio::AudioBuffer;
use whisper_core::config::{LanguageConfig, ModelSize, WhisperConfig};
use whisper_core::error::WhisperError;
use whisper_core::transcription::{ContextHandle, TranscribeStep, TranscriptionEngine, require_model_present};

#[test]
fn test_transcribe_before_initialize_signals_not_initialized() {
    let engine = TranscriptionEngine::with_defaults();
    assert!(!engine.is_initialized());
    let audio = AudioBuffer::from_samples(vec![1, 2, 3], 16000);
    match engine.begin_transcribe(&audio) {
        Err(WhisperError::ContextInitError(_)) => {}
        other => panic!("expected a not-initialized signal, got {:?}", other),
    }
}

#[test]
fn test_transcribe_empty_buffer_short_circuits() {
    let mut engine = TranscriptionEngine::with_defaults();
    engine.attach_context(ContextHandle { id: 1 });
    assert!(engine.is_initialized());
    let audio = AudioBuffer::new();
    match engine.begin_transcribe(&audio) {
        Ok(TranscribeStep::Finished(t)) => {
            assert_eq!(t.text, "");
            assert_eq!(t.segments.len(), 0);
            assert_eq!(t.language, "");
            assert_eq!(t.processing_time_ms, 0);
            assert_eq!(t.audio_duration_ms, 0);
        }
        other => panic!("expected an immediate empty result, got {:?}", other),
    }
}

#[test]
fn test_transcribe_prepares_backend_request() {
    let mut engine = TranscriptionEngine::new(
        WhisperConfig::default().language("en".to_string()).threads(4),
    );
    engine.attach_context(ContextHandle { id: 7 });
    let audio = AudioBuffer::from_samples(vec![0; 48000], 48000);
    match engine.begin_transcribe(&audio) {
        Ok(TranscribeStep::RunBackend(req)) => {
            assert_eq!(req.context, ContextHandle { id: 7 });
            assert_eq!(req.samples.sample_rate(), 16000);
            assert_eq!(req.samples.len(), 16000);
            assert_eq!(req.audio_duration_ms, 1000);
            assert_eq!(req.params.language.as_deref(), Some("en"));
            assert!(!req.params.translate);
            assert_eq!(req.params.n_threads, 4);
            assert!(!req.params.print_special);
            assert!(!req.params.print_progress);
            assert!(!req.params.print_realtime);
            assert!(!req.params.print_timestamps);
            assert!(req.params.suppress_blank);
            assert!(req.params.suppress_non_speech_tokens);
        }
        other => panic!("expected a backend request, got {:?}", other),
    }
}

#[test]
fn test_auto_language_leaves_backend_free() {
    let mut engine = TranscriptionEngine::with_defaults();
    engine.attach_context(ContextHandle { id: 2 });
    let audio = AudioBuffer::from_samples(vec![5; 100], 16000);
    match engine.begin_transcribe(&audio) {
        Ok(TranscribeStep::RunBackend(req)) => {
            assert_eq!(req.params.language, None);
        }
        other => panic!("expected a backend request, got {:?}", other),
    }
}

#[test]
fn test_shutdown_and_set_config_reset_state() {
    let mut engine = TranscriptionEngine::with_defaults();
    engine.attach_context(ContextHandle { id: 3 });
    assert!(engine.is_initialized());
    engine.shutdown();
    assert!(!engine.is_initialized());
    engine.shutdown();
    assert!(!engine.is_initialized());

    engine.attach_context(ContextHandle { id: 4 });
    engine.set_config(WhisperConfig::default());
    assert!(!engine.is_initialized());
}

#[test]
fn test_resolve_model_path_prefers_explicit_path() {
    let engine = TranscriptionEngine::new(WhisperConfig::with_model_path(
        "/tmp/model.bin".to_string(),
    ));
    let path = engine.resolve_model_path(Some("/home/me")).unwrap();
    assert_eq!(path, "/tmp/model.bin");
}

#[test]
fn test_resolve_model_path_derives_default() {
    let engine = TranscriptionEngine::new(WhisperConfig::with_model_size(ModelSize::Small));
    let path = engine.resolve_model_path(Some("/home/me")).unwrap();
    assert_eq!(
        path,
        "/home/me/Library/Application Support/BetterFasterWhisper/Models/ggml-small.bin"
    );
}

#[test]
fn test_resolve_model_path_without_home_fails() {
    let engine = TranscriptionEngine::with_defaults();
    match engine.resolve_model_path(None) {
        Err(WhisperError::ConfigError(_)) => {}
        other => panic!("expected a configuration error, got {:?}", other),
    }
}

#[test]
fn test_missing_model_is_model_not_found() {
    match require_model_present("/nowhere/ggml-base.bin".to_string(), false) {
        Err(WhisperError::ModelNotFound(p)) => assert_eq!(p, "/nowhere/ggml-base.bin"),
        other => panic!("expected model-not-found, got {:?}", other),
    }
    assert_eq!(
        require_model_present("/somewhere".to_string(), true).unwrap(),
        "/somewhere"
    );
}

#[test]
fn test_model_filenames_and_sizes() {
    assert_eq!(ModelSize::Tiny.filename(), "ggml-tiny.bin");
    assert_eq!(ModelSize::Base.filename(), "ggml-base.bin");
    assert_eq!(ModelSize::LargeV3Turbo.filename(), "ggml-large-v3-turbo.bin");
    assert_eq!(ModelSize::Tiny.size_bytes(), 75_000_000);
    assert_eq!(ModelSize::Medium.size_bytes(), 1_500_000_000);
    assert_eq!(ModelSize::default(), ModelSize::Base);
}

#[test]
fn test_config_defaults_and_builders() {
    let c = WhisperConfig::default();
    assert_eq!(c.model_path, "");
    assert_eq!(c.model_size, ModelSize::Base);
    assert_eq!(c.language.source, "auto");
    assert!(!c.language.translate_to_english);
    assert_eq!(c.n_threads, 0);
    assert!(c.use_gpu);
    assert!(c.flash_attention);
    assert_eq!(c.max_duration_seconds, 300);
    assert_eq!(c.temperature, 0);
    assert!(!c.word_timestamps);
    assert_eq!(c.max_segment_length, 0);
    assert!(c.vad_enabled);
    assert_eq!(c.vad_threshold, 500);

    let c = WhisperConfig::with_model_size(ModelSize::Large)
        .language("fr".to_string())
        .translate()
        .threads(8)
        .gpu(false);
    assert_eq!(c.model_size, ModelSize::Large);
    assert_eq!(c.language.source, "fr");
    assert!(c.language.translate_to_english);
    assert_eq!(c.n_threads, 8);
    assert!(!c.use_gpu);

    let l = LanguageConfig::default();
    assert_eq!(l.source, "auto");
    assert!(!l.translate_to_english);
}

#[test]
fn test_error_codes_are_distinct_and_negative() {
    let errors = [
        WhisperError::ModelLoadError("m".to_string()),
        WhisperError::ContextInitError("m".to_string()),
        WhisperError::AudioError("m".to_string()),
        WhisperError::TranscriptionError("m".to_string()),
        WhisperError::ConfigError("m".to_string()),
        WhisperError::IoError("m".to_string()),
        WhisperError::ModelNotFound("m".to_string()),
        WhisperError::UnsupportedFormat("m".to_string()),
        WhisperError::DeviceError("m".to_string()),
        WhisperError::FfiError("m".to_string()),
    ];
    let codes: Vec<i32> = errors.iter().map(|e| e.error_code()).collect();
    assert_eq!(codes, vec![-1, -2, -3, -4, -5, -6, -7, -8, -9, -10]);
}

#[test]
fn test_error_messages_name_the_kind() {
    assert_eq!(
        WhisperError::ModelNotFound("/a/b".to_string()).message(),
        "Model not found: /a/b"
    );
    assert_eq!(
        WhisperError::TranscriptionError("boom".to_string()).message(),
        "Transcription failed: boom"
    );
}
