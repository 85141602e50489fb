//! The transcription engine: configuration, initialization state and
//! the transcribe pipeline.
//!
//! The backend (model loading and inference) and the filesystem are
//! driven by the surrounding runtime. The engine decides every step:
//! `resolve_model_path` and `require_model_present` govern
//! initialization, `begin_transcribe` normalizes the audio and
//! assembles the inference parameters, and `finish_transcribe` turns
//! the backend's raw segments into the final result.

use vstd::prelude::*;
use crate::audio::{AudioBuffer, MAX_BUFFER_LEN, WHISPER_SAMPLE_RATE, spec_resample, spec_resampled_len};
use crate::config::WhisperConfig;
use crate::error::WhisperError;
use crate::text::{is_blank, spec_is_blank, spec_trim, trim_text};

verus! {

/// Largest backend timestamp (in centiseconds) whose conversion to
/// milliseconds stays inside 64 bits.
pub const MAX_TIMESTAMP_CS: i64 = 922_337_203_685_477_580;

/// Largest processing time whose conversion to thousandths stays
/// inside 64 bits.
pub const MAX_PROCESSING_MS: u64 = 18_446_744_073_709_551;

/// A single transcription segment with timing information.
#[derive(Debug, Clone)]
pub struct Segment {
    /// Start time in milliseconds.
    pub start_ms: i64,
    /// End time in milliseconds.
    pub end_ms: i64,
    /// Transcribed text for this segment.
    pub text: String,
    /// Confidence score in thousandths (0 - 1000).
    pub confidence: u32,
    /// Speaker ID if diarization is enabled (carried, not computed).
    pub speaker_id: Option<u32>,
}

impl Segment {
    /// Creates a new segment at full confidence and with no speaker.
    pub fn new(start_ms: i64, end_ms: i64, text: String) -> (s: Self)
        requires
            start_ms <= end_ms,
        ensures
            s.start_ms == start_ms,
            s.end_ms == end_ms,
            s.text == text,
            s.confidence == 1000u32,
            s.speaker_id is None,
    {
        Segment { start_ms, end_ms, text, confidence: 1000, speaker_id: None }
    }

    /// Returns the duration in milliseconds.
    pub fn duration_ms(&self) -> (d: i64)
        requires
            self.start_ms <= self.end_ms,
            self.end_ms - self.start_ms <= i64::MAX,
        ensures
            d == self.end_ms - self.start_ms,
    {
        self.end_ms - self.start_ms
    }
}

/// Result of a transcription operation.
#[derive(Debug, Clone)]
pub struct TranscriptionResult {
    /// Full transcribed text.
    pub text: String,
    /// Individual segments with timing.
    pub segments: Vec<Segment>,
    /// Detected language code.
    pub language: String,
    /// Processing time in milliseconds.
    pub processing_time_ms: u64,
    /// Audio duration in milliseconds.
    pub audio_duration_ms: u64,
}

impl TranscriptionResult {
    /// Creates a new empty result.
    pub fn empty() -> (t: Self)
        ensures
            t.text@ == Seq::<char>::empty(),
            t.segments@ == Seq::<Segment>::empty(),
            t.language@ == Seq::<char>::empty(),
            t.processing_time_ms == 0u64,
            t.audio_duration_ms == 0u64,
    {
        TranscriptionResult {
            text: String::new(),
            segments: Vec::new(),
            language: String::new(),
            processing_time_ms: 0,
            audio_duration_ms: 0,
        }
    }

    /// The real-time factor in thousandths: zero when the audio
    /// duration is zero, else processing time over audio duration.
    pub open spec fn spec_realtime_factor(&self) -> int {
        if self.audio_duration_ms == 0 {
            0
        } else {
            self.processing_time_ms as int * 1000 / (self.audio_duration_ms as int)
        }
    }

    /// Returns the real-time factor (processing time over audio
    /// duration) in thousandths; values below 1000 mean
    /// faster-than-real-time processing.
    pub fn realtime_factor(&self) -> (f: u64)
        requires
            self.processing_time_ms <= MAX_PROCESSING_MS,
        ensures
            f == self.spec_realtime_factor(),
    {
        if self.audio_duration_ms == 0 {
            return 0;
        }
        self.processing_time_ms * 1000 / self.audio_duration_ms
    }
}

/// Opaque identifier of a loaded backend model context. The runtime
/// that drives the backend owns the real context and knows it by this
/// identifier; dropping the engine's handle invalidates it.
#[derive(Debug, Clone, Copy, PartialEq, Eq, Structural)]
pub struct ContextHandle {
    /// The runtime's identifier for the loaded context.
    pub id: u64,
}

/// Parameters for one backend inference call, assembled from the
/// configuration: no printing side channels, blank and non-speech
/// tokens suppressed.
#[derive(Debug, Clone)]
pub struct InferenceParams {
    /// Explicit source language, or None to auto-detect.
    pub language: Option<String>,
    /// Whether to translate to English.
    pub translate: bool,
    /// Thread count; 0 lets the backend pick.
    pub n_threads: u32,
    /// Whether the backend may print special tokens.
    pub print_special: bool,
    /// Whether the backend may print progress.
    pub print_progress: bool,
    /// Whether the backend may print in real time.
    pub print_realtime: bool,
    /// Whether the backend may print timestamps.
    pub print_timestamps: bool,
    /// Whether blank outputs are suppressed.
    pub suppress_blank: bool,
    /// Whether non-speech tokens are suppressed.
    pub suppress_non_speech_tokens: bool,
}

/// A segment as the backend emits it: centisecond timestamps and raw
/// text.
#[derive(Debug, Clone)]
pub struct RawSegment {
    /// Start time in centiseconds.
    pub t0: i64,
    /// End time in centiseconds.
    pub t1: i64,
    /// Raw segment text.
    pub text: String,
}

/// Everything the runtime needs for one backend inference call.
#[derive(Debug)]
pub struct InferenceRequest {
    /// The engine's context handle.
    pub context: ContextHandle,
    /// The audio, already mono at the backend rate.
    pub samples: AudioBuffer,
    /// The assembled inference parameters.
    pub params: InferenceParams,
    /// Duration of the original audio in milliseconds.
    pub audio_duration_ms: u64,
}

/// What `begin_transcribe` decides: either the result is already
/// complete (empty input), or the backend must run on the prepared
/// request.
#[derive(Debug)]
pub enum TranscribeStep {
    /// The transcription is complete without a backend call.
    Finished(TranscriptionResult),
    /// The backend must run on this request.
    RunBackend(InferenceRequest),
}

/// The main transcription engine: a configuration and at most one
/// loaded backend context. State machine: uninitialized until a
/// context is attached; changing the configuration or shutting down
/// drops the context and returns to uninitialized.
#[derive(Debug)]
pub struct TranscriptionEngine {
    config: WhisperConfig,
    ctx: Option<ContextHandle>,
    is_initialized: bool,
}

impl TranscriptionEngine {
    /// The configuration, for contracts.
    pub closed spec fn spec_config(&self) -> WhisperConfig {
        self.config
    }

    /// The held context handle, for contracts.
    pub closed spec fn spec_ctx(&self) -> Option<ContextHandle> {
        self.ctx
    }

    /// Whether the engine is initialized, for contracts.
    pub closed spec fn spec_initialized(&self) -> bool {
        self.is_initialized
    }

    /// The engine is initialized exactly when it holds a context.
    pub open spec fn wf(&self) -> bool {
        self.spec_initialized() <==> self.spec_ctx() is Some
    }

    /// Creates a new transcription engine with the given
    /// configuration, not yet initialized.
    pub fn new(config: WhisperConfig) -> (e: Self)
        ensures
            e.spec_config() == config,
            !e.spec_initialized(),
            e.spec_ctx() is None,
            e.wf(),
    {
        TranscriptionEngine { config, ctx: None, is_initialized: false }
    }

    /// Creates an engine with the default configuration.
    pub fn with_defaults() -> (e: Self)
        ensures
            crate::config::spec_default_config(e.spec_config()),
            !e.spec_initialized(),
            e.spec_ctx() is None,
            e.wf(),
    {
        TranscriptionEngine::new(WhisperConfig::default())
    }

    /// Returns whether the engine is initialized.
    pub fn is_initialized(&self) -> (r: bool)
        ensures
            r == self.spec_initialized(),
    {
        self.is_initialized
    }

    /// Returns a reference to the current configuration.
    pub fn config(&self) -> (c: &WhisperConfig)
        ensures
            *c == self.spec_config(),
    {
        &self.config
    }

    /// Updates the configuration; the held context is dropped and the
    /// engine must be re-initialized.
    pub fn set_config(&mut self, config: WhisperConfig)
        ensures
            final(self).spec_config() == config,
            !final(self).spec_initialized(),
            final(self).spec_ctx() is None,
            final(self).wf(),
    {
        self.config = config;
        self.is_initialized = false;
        self.ctx = None;
    }

    /// Releases the held context and returns to uninitialized;
    /// idempotent.
    pub fn shutdown(&mut self)
        ensures
            final(self).spec_config() == old(self).spec_config(),
            !final(self).spec_initialized(),
            final(self).spec_ctx() is None,
            final(self).wf(),
    {
        self.ctx = None;
        self.is_initialized = false;
    }

    /// Resolves the model path: the explicit configured path when one
    /// is set, else a fixed models directory under the caller's home
    /// directory plus the size's fixed file name; without a home
    /// directory the configuration is invalid.
    pub fn resolve_model_path(&self, home: Option<&str>) -> (r: Result<String, WhisperError>)
        ensures
            self.spec_config().model_path@.len() > 0 ==> r is Ok && r->Ok_0@
                == self.spec_config().model_path@,
            self.spec_config().model_path@.len() == 0 && home is None ==> r is Err && r->Err_0
                is ConfigError,
            self.spec_config().model_path@.len() == 0 && home is Some ==> r is Ok && r->Ok_0@
                == home->0@ + "/Library/Application Support/BetterFasterWhisper/Models/"@
                + self.spec_config().model_size.spec_filename(),
    {
        if self.config.model_path.as_str().unicode_len() > 0 {
            Ok(self.config.model_path.clone())
        } else {
            match home {
                None => Err(WhisperError::ConfigError(String::from_str("HOME not set"))),
                Some(h) => {
                    let path = String::from_str(h).concat(
                        "/Library/Application Support/BetterFasterWhisper/Models/",
                    ).concat(self.config.model_size.filename());
                    Ok(path)
                },
            }
        }
    }

    /// Attaches a loaded backend context; the engine becomes
    /// initialized.
    pub fn attach_context(&mut self, handle: ContextHandle)
        ensures
            final(self).spec_config() == old(self).spec_config(),
            final(self).spec_initialized(),
            final(self).spec_ctx() == Some(handle),
            final(self).wf(),
    {
        self.ctx = Some(handle);
        self.is_initialized = true;
    }

    /// Decides the first step of a transcription. Before
    /// initialization every call fails with the not-initialized
    /// signal. Empty audio is already complete: an empty result,
    /// without any backend call. Otherwise the audio is resampled to
    /// the backend rate and the inference parameters are assembled
    /// from the configuration.
    pub fn begin_transcribe(&self, audio: &AudioBuffer) -> (r: Result<
        TranscribeStep,
        WhisperError,
    >)
        requires
            self.wf(),
            audio.wf(),
            audio@.len() <= MAX_BUFFER_LEN,
            spec_resampled_len(
                audio@.len() as int,
                audio.spec_rate() as int,
                WHISPER_SAMPLE_RATE as int,
            ) <= MAX_BUFFER_LEN,
        ensures
            !self.spec_initialized() ==> r is Err && r->Err_0 is ContextInitError,
            self.spec_initialized() && audio@.len() == 0 ==> r is Ok && r->Ok_0 is Finished && {
                let t = r->Ok_0->Finished_0;
                t.text@ == Seq::<char>::empty() && t.segments@ == Seq::<Segment>::empty()
                    && t.language@ == Seq::<char>::empty() && t.processing_time_ms == 0u64
                    && t.audio_duration_ms == 0u64
            },
            self.spec_initialized() && audio@.len() > 0 ==> r is Ok && r->Ok_0 is RunBackend && {
                let req = r->Ok_0->RunBackend_0;
                &&& req.context == self.spec_ctx()->0
                &&& req.samples@ == spec_resample(
                    audio@,
                    audio.spec_rate() as int,
                    WHISPER_SAMPLE_RATE as int,
                )
                &&& req.samples.spec_rate() == WHISPER_SAMPLE_RATE
                &&& req.audio_duration_ms == audio@.len() as int * 1000 / (
                audio.spec_rate() as int)
                &&& req.params.language is Some <==> self.spec_config().language.source@
                    != "auto"@
                &&& (req.params.language is Some ==> req.params.language->0@
                    == self.spec_config().language.source@)
                &&& req.params.translate == self.spec_config().language.translate_to_english
                &&& req.params.n_threads == self.spec_config().n_threads
                &&& !req.params.print_special
                &&& !req.params.print_progress
                &&& !req.params.print_realtime
                &&& !req.params.print_timestamps
                &&& req.params.suppress_blank
                &&& req.params.suppress_non_speech_tokens
            },
    {
        if !self.is_initialized {
            return Err(
                WhisperError::ContextInitError(
                    String::from_str("Engine not initialized. Call initialize() first."),
                ),
            );
        }
        if audio.is_empty() {
            return Ok(TranscribeStep::Finished(TranscriptionResult::empty()));
        }
        let context = match &self.ctx {
            Some(h) => *h,
            None => {
                proof {
                    assert(false);
                }
                return Err(
                    WhisperError::ContextInitError(String::from_str("Context not available")),
                );
            },
        };
        let audio_duration_ms = audio.duration_ms();
        let resampled = audio.resample(WHISPER_SAMPLE_RATE);
        let samples = resampled.unwrap();
        let auto = String::from_str("auto");
        let language: Option<String> = if self.config.language.source == auto {
            None
        } else {
            Some(self.config.language.source.clone())
        };
        let params = InferenceParams {
            language,
            translate: self.config.language.translate_to_english,
            n_threads: self.config.n_threads,
            print_special: false,
            print_progress: false,
            print_realtime: false,
            print_timestamps: false,
            suppress_blank: true,
            suppress_non_speech_tokens: true,
        };
        Ok(
            TranscribeStep::RunBackend(
                InferenceRequest { context, samples, params, audio_duration_ms },
            ),
        )
    }
}

/// Decides whether a resolved model path can be used: the caller
/// reports whether the file exists; a missing file is the
/// model-not-found failure carrying the path.
pub fn require_model_present(path: String, exists: bool) -> (r: Result<String, WhisperError>)
    ensures
        exists ==> r is Ok && r->Ok_0 == path,
        !exists ==> r is Err && r->Err_0 == WhisperError::ModelNotFound(path),
{
    if exists {
        Ok(path)
    } else {
        Err(WhisperError::ModelNotFound(path))
    }
}

/// Whether a backend segment is kept: its text must hold something
/// besides whitespace.
pub open spec fn spec_kept(raw: RawSegment) -> bool {
    !spec_is_blank(raw.text@)
}

/// A backend segment converted to milliseconds: centisecond
/// timestamps are multiplied by ten; confidence is full, no speaker.
pub open spec fn spec_segment_of(raw: RawSegment) -> Segment {
    Segment {
        start_ms: (raw.t0 * 10) as i64,
        end_ms: (raw.t1 * 10) as i64,
        text: raw.text,
        confidence: 1000u32,
        speaker_id: None,
    }
}

/// The kept backend segments, in backend order, converted to
/// milliseconds.
pub open spec fn spec_assembled_segments(raws: Seq<RawSegment>) -> Seq<Segment>
    decreases raws.len(),
{
    if raws.len() == 0 {
        Seq::<Segment>::empty()
    } else {
        let rest = spec_assembled_segments(raws.drop_last());
        if spec_kept(raws.last()) {
            rest.push(spec_segment_of(raws.last()))
        } else {
            rest
        }
    }
}

/// The texts of the kept backend segments, concatenated in order.
pub open spec fn spec_assembled_text(raws: Seq<RawSegment>) -> Seq<char>
    decreases raws.len(),
{
    if raws.len() == 0 {
        Seq::<char>::empty()
    } else {
        spec_assembled_text(raws.drop_last()) + (if spec_kept(raws.last()) {
            raws.last().text@
        } else {
            Seq::<char>::empty()
        })
    }
}

impl TranscriptionEngine {
    /// Turns the backend's raw segments into the final result:
    /// centisecond timestamps become milliseconds, segments whose
    /// trimmed text is empty are skipped, the kept texts are
    /// concatenated and trimmed, and the language is the configured
    /// one - or, under auto-detection, the detected language,
    /// defaulting to English.
    pub fn finish_transcribe(
        &self,
        raws: Vec<RawSegment>,
        detected_language: Option<String>,
        processing_time_ms: u64,
        audio_duration_ms: u64,
    ) -> (t: TranscriptionResult)
        requires
            forall|i: int|
                0 <= i < raws@.len() ==> 0 <= #[trigger] raws@[i].t0 <= raws@[i].t1
                    <= MAX_TIMESTAMP_CS,
        ensures
            t.segments@ == spec_assembled_segments(raws@),
            t.text@ == spec_trim(spec_assembled_text(raws@)),
            self.spec_config().language.source@ == "auto"@ ==> t.language@ == match (
            detected_language) {
                Some(d) => d@,
                None => "en"@,
            },
            self.spec_config().language.source@ != "auto"@ ==> t.language@
                == self.spec_config().language.source@,
            t.processing_time_ms == processing_time_ms,
            t.audio_duration_ms == audio_duration_ms,
    {
        let n = raws.len();
        let mut segments: Vec<Segment> = Vec::new();
        let mut full_text = String::new();
        let mut i: usize = 0;
        while i < n
            invariant
                i <= n,
                n == raws@.len(),
                forall|k: int|
                    0 <= k < raws@.len() ==> 0 <= #[trigger] raws@[k].t0 <= raws@[k].t1
                        <= MAX_TIMESTAMP_CS,
                segments@ == spec_assembled_segments(raws@.subrange(0, i as int)),
                full_text@ == spec_assembled_text(raws@.subrange(0, i as int)),
            decreases n - i,
        {
            let ghost pre = raws@.subrange(0, i as int);
            let ghost cur = raws@.subrange(0, i + 1);
            proof {
                assert(cur.drop_last() =~= pre);
                assert(cur.last() == raws@[i as int]);
            }
            let raw = &raws[i];
            let start_ms: i64 = raw.t0 * 10;
            let end_ms: i64 = raw.t1 * 10;
            if !is_blank(raw.text.as_str()) {
                full_text.append(raw.text.as_str());
                segments.push(Segment::new(start_ms, end_ms, raw.text.clone()));
            }
            i = i + 1;
        }
        proof {
            assert(raws@.subrange(0, n as int) =~= raws@);
        }
        let auto = String::from_str("auto");
        let language: String = if self.config.language.source == auto {
            match detected_language {
                Some(d) => d,
                None => String::from_str("en"),
            }
        } else {
            self.config.language.source.clone()
        };
        let text = trim_text(full_text.as_str());
        TranscriptionResult {
            text,
            segments,
            language,
            processing_time_ms,
            audio_duration_ms,
        }
    }
}

} // verus!
