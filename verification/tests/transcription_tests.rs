use whisper_core::transcription::{RawSegment, Segment, TranscriptionEngine, TranscriptionResult};
use whisper_core::audio::resample_to_16khz;

#[test]
fn test_segment_duration() {
    let segment = Segment::new(1000, 2500, "test".to_string());
    assert_eq!(segment.duration_ms(), 1500);
}

#[test]
fn test_result_realtime_factor() {
    let result = TranscriptionResult {
        text: "test".to_string(),
        segments: vec![],
        language: "en".to_string(),
        processing_time_ms: 500,
        audio_duration_ms: 1000,
    };
    // 500 ms of work for 1000 ms of audio: a factor of 0.5, in thousandths.
    assert_eq!(result.realtime_factor(), 500);
}

#[test]
fn test_resample() {
    // Simple test: 48kHz to 16kHz should reduce length by 1/3
    let samples: Vec<i32> = (0..48000)
        .map(|i| ((i as f32 / 48000.0).sin() * 32768.0) as i32)
        .collect();
    let resampled = resample_to_16khz(&samples, 48000);
    assert_eq!(resampled.len(), 16000);
}

#[test]
fn test_realtime_factor_zero_duration() {
    let result = TranscriptionResult {
        text: String::new(),
        segments: vec![],
        language: String::new(),
        processing_time_ms: 123,
        audio_duration_ms: 0,
    };
    assert_eq!(result.realtime_factor(), 0);
}

#[test]
fn test_empty_result() {
    let t = TranscriptionResult::empty();
    assert_eq!(t.text, "");
    assert_eq!(t.segments.len(), 0);
    assert_eq!(t.language, "");
    assert_eq!(t.processing_time_ms, 0);
    assert_eq!(t.audio_duration_ms, 0);
}

#[test]
fn test_segment_fields() {
    let s = Segment::new(0, 10, "hello".to_string());
    assert_eq!(s.start_ms, 0);
    assert_eq!(s.end_ms, 10);
    assert_eq!(s.text, "hello");
    assert_eq!(s.confidence, 1000);
    assert_eq!(s.speaker_id, None);
}

#[test]
fn test_finish_transcribe_converts_centiseconds() {
    let engine = TranscriptionEngine::with_defaults();
    let raws = vec![RawSegment { t0: 100, t1: 250, text: " hello".to_string() }];
    let t = engine.finish_transcribe(raws, None, 40, 1500);
    assert_eq!(t.segments.len(), 1);
    assert_eq!(t.segments[0].start_ms, 1000);
    assert_eq!(t.segments[0].end_ms, 2500);
    assert_eq!(t.segments[0].duration_ms(), 1500);
    assert_eq!(t.text, "hello");
    assert_eq!(t.language, "en");
    assert_eq!(t.processing_time_ms, 40);
    assert_eq!(t.audio_duration_ms, 1500);
}

#[test]
fn test_finish_transcribe_skips_blank_segments() {
    let engine = TranscriptionEngine::with_defaults();
    let raws = vec![
        RawSegment { t0: 0, t1: 10, text: "  ".to_string() },
        RawSegment { t0: 10, t1: 20, text: " one".to_string() },
        RawSegment { t0: 20, t1: 30, text: "\t\n".to_string() },
        RawSegment { t0: 30, t1: 40, text: " two ".to_string() },
    ];
    let t = engine.finish_transcribe(raws, Some("fr".to_string()), 0, 0);
    assert_eq!(t.segments.len(), 2);
    assert_eq!(t.segments[0].text, " one");
    assert_eq!(t.segments[1].text, " two ");
    assert_eq!(t.text, "one two");
    assert_eq!(t.language, "fr");
}

#[test]
fn test_finish_transcribe_explicit_language() {
    let engine = TranscriptionEngine::new(
        whisper_core::WhisperConfig::default().language("de".to_string()),
    );
    let t = engine.finish_transcribe(vec![], Some("en".to_string()), 0, 0);
    assert_eq!(t.language, "de");
    assert_eq!(t.segments.len(), 0);
    assert_eq!(t.text, "");
}
