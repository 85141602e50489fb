//! Configuration types for transcription.
//!
//! Fractional settings (sampling temperature, voice-activity threshold)
//! are carried in thousandths, so that 1000 stands for 1.0.

use vstd::prelude::*;

verus! {

/// Model size variants.
#[derive(Debug, Clone, Copy, PartialEq, Eq, Structural)]
pub enum ModelSize {
    /// Tiny model (~75MB) - fastest, least accurate.
    Tiny,
    /// Base model (~142MB) - fast, good for simple tasks.
    Base,
    /// Small model (~466MB) - balanced speed/accuracy.
    Small,
    /// Medium model (~1.5GB) - good accuracy.
    Medium,
    /// Large model (~2.9GB) - best accuracy.
    Large,
    /// Large-v2 model - improved large model.
    LargeV2,
    /// Large-v3 model - latest and most accurate.
    LargeV3,
    /// Large-v3-turbo - optimized for speed.
    LargeV3Turbo,
}

impl ModelSize {
    /// The fixed file name of each model size.
    pub open spec fn spec_filename(&self) -> Seq<char> {
        match self {
            ModelSize::Tiny => "ggml-tiny.bin"@,
            ModelSize::Base => "ggml-base.bin"@,
            ModelSize::Small => "ggml-small.bin"@,
            ModelSize::Medium => "ggml-medium.bin"@,
            ModelSize::Large => "ggml-large.bin"@,
            ModelSize::LargeV2 => "ggml-large-v2.bin"@,
            ModelSize::LargeV3 => "ggml-large-v3.bin"@,
            ModelSize::LargeV3Turbo => "ggml-large-v3-turbo.bin"@,
        }
    }

    /// Returns the model filename.
    pub fn filename(&self) -> (name: &'static str)
        ensures
            name@ == self.spec_filename(),
    {
        match self {
            ModelSize::Tiny => "ggml-tiny.bin",
            ModelSize::Base => "ggml-base.bin",
            ModelSize::Small => "ggml-small.bin",
            ModelSize::Medium => "ggml-medium.bin",
            ModelSize::Large => "ggml-large.bin",
            ModelSize::LargeV2 => "ggml-large-v2.bin",
            ModelSize::LargeV3 => "ggml-large-v3.bin",
            ModelSize::LargeV3Turbo => "ggml-large-v3-turbo.bin",
        }
    }

    /// The approximate size of each model file.
    pub open spec fn spec_size_bytes(&self) -> u64 {
        match self {
            ModelSize::Tiny => 75_000_000u64,
            ModelSize::Base => 142_000_000u64,
            ModelSize::Small => 466_000_000u64,
            ModelSize::Medium => 1_500_000_000u64,
            ModelSize::Large => 2_900_000_000u64,
            ModelSize::LargeV2 => 2_900_000_000u64,
            ModelSize::LargeV3 => 2_900_000_000u64,
            ModelSize::LargeV3Turbo => 1_600_000_000u64,
        }
    }

    /// Returns approximate model size in bytes.
    pub fn size_bytes(&self) -> (n: u64)
        ensures
            n == self.spec_size_bytes(),
    {
        match self {
            ModelSize::Tiny => 75_000_000,
            ModelSize::Base => 142_000_000,
            ModelSize::Small => 466_000_000,
            ModelSize::Medium => 1_500_000_000,
            ModelSize::Large => 2_900_000_000,
            ModelSize::LargeV2 => 2_900_000_000,
            ModelSize::LargeV3 => 2_900_000_000,
            ModelSize::LargeV3Turbo => 1_600_000_000,
        }
    }
}

impl Default for ModelSize {
    /// The baseline model size.
    fn default() -> (d: Self)
        ensures
            d == ModelSize::Base,
    {
        ModelSize::Base
    }
}

/// Language configuration for transcription.
#[derive(Debug, Clone)]
pub struct LanguageConfig {
    /// Source language code (e.g., "en", "fr", "auto").
    pub source: String,
    /// Whether to translate to English.
    pub translate_to_english: bool,
}

impl Default for LanguageConfig {
    /// Auto-detected source language, no translation.
    fn default() -> (d: Self)
        ensures
            d.source@ == "auto"@,
            !d.translate_to_english,
    {
        LanguageConfig { source: String::from_str("auto"), translate_to_english: false }
    }
}

/// Main configuration for transcription.
#[derive(Debug, Clone)]
pub struct WhisperConfig {
    /// Path to the model file; empty means: derive it from `model_size`.
    pub model_path: String,
    /// Model size (used if `model_path` is empty).
    pub model_size: ModelSize,
    /// Language configuration.
    pub language: LanguageConfig,
    /// Number of threads to use (0 = auto).
    pub n_threads: u32,
    /// Enable GPU acceleration.
    pub use_gpu: bool,
    /// Enable flash attention.
    pub flash_attention: bool,
    /// Maximum audio duration to process (seconds).
    pub max_duration_seconds: u32,
    /// Sampling temperature in thousandths (0 = greedy).
    pub temperature: u32,
    /// Enable word-level timestamps.
    pub word_timestamps: bool,
    /// Maximum segment length in characters (0 = no limit).
    pub max_segment_length: u32,
    /// Enable voice-activity detection.
    pub vad_enabled: bool,
    /// Voice-activity threshold in thousandths (range 0 - 1000).
    pub vad_threshold: u32,
}

/// What every field of the default configuration holds.
pub open spec fn spec_default_config(c: WhisperConfig) -> bool {
    &&& c.model_path@ == Seq::<char>::empty()
    &&& c.model_size == ModelSize::Base
    &&& c.language.source@ == "auto"@
    &&& !c.language.translate_to_english
    &&& c.n_threads == 0u32
    &&& c.use_gpu
    &&& c.flash_attention
    &&& c.max_duration_seconds == 300u32
    &&& c.temperature == 0u32
    &&& !c.word_timestamps
    &&& c.max_segment_length == 0u32
    &&& c.vad_enabled
    &&& c.vad_threshold == 500u32
}

impl Default for WhisperConfig {
    /// The built-in defaults: no explicit model path, base model,
    /// auto-detected language, auto thread count, GPU on.
    fn default() -> (d: Self)
        ensures
            spec_default_config(d),
    {
        WhisperConfig {
            model_path: String::new(),
            model_size: ModelSize::Base,
            language: LanguageConfig::default(),
            n_threads: 0,
            use_gpu: true,
            flash_attention: true,
            max_duration_seconds: 300,
            temperature: 0,
            word_timestamps: false,
            max_segment_length: 0,
            vad_enabled: true,
            vad_threshold: 500,
        }
    }
}

impl WhisperConfig {
    /// Creates a new config with the specified model path.
    pub fn with_model_path(model_path: String) -> (c: Self)
        ensures
            c.model_path@ == model_path@,
            c.model_size == ModelSize::Base,
            c.language.source@ == "auto"@,
            !c.language.translate_to_english,
            c.n_threads == 0u32,
            c.use_gpu,
    {
        let mut c = WhisperConfig::default();
        c.model_path = model_path;
        c
    }

    /// Creates a new config with the specified model size.
    pub fn with_model_size(model_size: ModelSize) -> (c: Self)
        ensures
            c.model_path@ == Seq::<char>::empty(),
            c.model_size == model_size,
            c.language.source@ == "auto"@,
            !c.language.translate_to_english,
            c.n_threads == 0u32,
            c.use_gpu,
    {
        let mut c = WhisperConfig::default();
        c.model_size = model_size;
        c
    }

    /// Sets the source language.
    pub fn language(self, lang: String) -> (c: Self)
        ensures
            c.language.source@ == lang@,
            c.language.translate_to_english == self.language.translate_to_english,
            c.model_path == self.model_path,
            c.model_size == self.model_size,
            c.n_threads == self.n_threads,
            c.use_gpu == self.use_gpu,
    {
        let mut c = self;
        c.language.source = lang;
        c
    }

    /// Enables translation to English.
    pub fn translate(self) -> (c: Self)
        ensures
            c.language.translate_to_english,
            c.language.source == self.language.source,
            c.model_path == self.model_path,
            c.model_size == self.model_size,
            c.n_threads == self.n_threads,
            c.use_gpu == self.use_gpu,
    {
        let mut c = self;
        c.language.translate_to_english = true;
        c
    }

    /// Sets the number of threads.
    pub fn threads(self, n: u32) -> (c: Self)
        ensures
            c.n_threads == n,
            c.language == self.language,
            c.model_path == self.model_path,
            c.model_size == self.model_size,
            c.use_gpu == self.use_gpu,
    {
        let mut c = self;
        c.n_threads = n;
        c
    }

    /// Enables or disables GPU acceleration.
    pub fn gpu(self, enabled: bool) -> (c: Self)
        ensures
            c.use_gpu == enabled,
            c.language == self.language,
            c.model_path == self.model_path,
            c.model_size == self.model_size,
            c.n_threads == self.n_threads,
    {
        let mut c = self;
        c.use_gpu = enabled;
        c
    }
}

} // verus!
