//! Default values of every configuration setting.
use crate::config::{
    opt_view, CustomProviderConfig, CustomProviderKind, FastVadConfig, FastVadProfileConfig, FloatBits,
    GeminiConfig, GroqConfig, ParakeetConfig, PasteHintsConfig, SecretSource, ShortcutsConfig,
    TranscriptionConfig, ValueSource, VadConfig, WhisperCppConfig,
};
use crate::provider::TranscriptionProvider;
use vstd::prelude::*;

verus! {

/// The shortcut that toggles recording when none is configured.
pub open spec fn default_shortcut_text() -> Seq<char> {
    "SUPER+ALT+R"@
}

/// The prompt handed to every back-end when none is configured.
pub open spec fn default_prompt_text() -> Seq<char> {
    "Transcribe as technical documentation with proper capitalization, acronyms, and technical terminology. Do not add punctuation."@
}

/// The directory searched for whisper models when none is configured.
pub open spec fn default_models_dir_text() -> Seq<char> {
    "~/.local/share/hyprwhspr-rs/models"@
}

/// Layers offloaded to the GPU: all of them.
pub fn default_gpu_layers() -> (r: i32)
    ensures
        r == 999,
{
    999
}

/// The default shortcut, `SUPER+ALT+R`.
pub fn default_primary_shortcut() -> (r: String)
    ensures
        r@ == default_shortcut_text(),
{
    String::from_str("SUPER+ALT+R")
}

/// The default whisper model name, `base`.
pub fn default_model() -> (r: String)
    ensures
        r@ == "base"@,
{
    String::from_str("base")
}

/// The default list of model directories.
pub fn default_models_dirs() -> (r: Vec<String>)
    ensures
        r@.len() == 1,
        r@[0]@ == default_models_dir_text(),
{
    let mut v: Vec<String> = Vec::new();
    v.push(String::from_str("~/.local/share/hyprwhspr-rs/models"));
    v
}

/// The default number of whisper threads, 4.
pub fn default_threads() -> (r: usize)
    ensures
        r == 4,
{
    4
}

/// The default transcription prompt.
pub fn default_whisper_prompt() -> (r: String)
    ensures
        r@ == default_prompt_text(),
{
    String::from_str(
        "Transcribe as technical documentation with proper capitalization, acronyms, and technical terminology. Do not add punctuation.",
    )
}

/// The default feedback sound volume, 0.3.
pub fn default_volume() -> (r: FloatBits)
    ensures
        r == FloatBits(0x3E99999A),
{
    FloatBits(0x3E99999A)
}

/// Transcripts are copied to the clipboard by default.
pub fn default_auto_copy_clipboard() -> (r: bool)
    ensures
        r,
{
    true
}

/// Shift is used when pasting by default.
pub fn default_shift_paste() -> (r: bool)
    ensures
        r,
{
    true
}

/// The default no-speech confidence gate, 0.6.
pub fn default_no_speech_threshold() -> (r: FloatBits)
    ensures
        r == FloatBits(0x3F19999A),
{
    FloatBits(0x3F19999A)
}

/// The default voice activity model file name.
pub fn default_vad_model() -> (r: String)
    ensures
        r@ == "ggml-silero-v5.1.2.bin"@,
{
    String::from_str("ggml-silero-v5.1.2.bin")
}

/// The default speech probability threshold, 0.5.
pub fn default_vad_threshold() -> (r: FloatBits)
    ensures
        r == FloatBits(0x3F000000),
{
    FloatBits(0x3F000000)
}

/// The default minimum speech duration, 250 ms.
pub fn default_vad_min_speech_ms() -> (r: u32)
    ensures
        r == 250,
{
    250
}

/// The default minimum silence duration, 100 ms.
pub fn default_vad_min_silence_ms() -> (r: u32)
    ensures
        r == 100,
{
    100
}

/// The default maximum speech duration: unlimited (positive infinity).
pub fn default_vad_max_speech_s() -> (r: FloatBits)
    ensures
        r == FloatBits(0x7F800000),
{
    FloatBits(0x7F800000)
}

/// Whether the encoded number is infinite or not a number (all exponent bits set).
pub open spec fn is_non_finite(x: FloatBits) -> bool {
    (x.0 / 0x800000) % 0x100 == 0xFF
}

/// Whether the encoded number is infinite or not a number; such a maximum speech
/// duration is left out when the configuration is written.
pub fn is_float_non_finite(value: &FloatBits) -> (r: bool)
    ensures
        r == is_non_finite(*value),
{
    (value.0 / 0x800000) % 0x100 == 0xFF
}

/// The default speech padding, 30 ms.
pub fn default_vad_speech_pad_ms() -> (r: u32)
    ensures
        r == 30,
{
    30
}

/// The default overlap between segments, 0.1.
pub fn default_vad_samples_overlap() -> (r: FloatBits)
    ensures
        r == FloatBits(0x3DCCCCCD),
{
    FloatBits(0x3DCCCCCD)
}

/// The default request timeout, 45 s.
pub fn default_transcription_request_timeout_secs() -> (r: u64)
    ensures
        r == 45,
{
    45
}

/// The default number of retries, 2.
pub fn default_transcription_max_retries() -> (r: u32)
    ensures
        r == 2,
{
    2
}

/// The default Groq model.
pub fn default_groq_model() -> (r: String)
    ensures
        r@ == "whisper-large-v3-turbo"@,
{
    String::from_str("whisper-large-v3-turbo")
}

/// The default Groq endpoint.
pub fn default_groq_endpoint() -> (r: String)
    ensures
        r@ == "https://api.groq.com/openai/v1/audio/transcriptions"@,
{
    String::from_str("https://api.groq.com/openai/v1/audio/transcriptions")
}

/// The default Gemini model.
pub fn default_gemini_model() -> (r: String)
    ensures
        r@ == "gemini-2.5-pro-exp-0827"@,
{
    String::from_str("gemini-2.5-pro-exp-0827")
}

/// The default Gemini endpoint.
pub fn default_gemini_endpoint() -> (r: String)
    ensures
        r@ == "https://generativelanguage.googleapis.com/v1beta/models"@,
{
    String::from_str("https://generativelanguage.googleapis.com/v1beta/models")
}

/// The default Gemini temperature, 0.
pub fn default_gemini_temperature() -> (r: FloatBits)
    ensures
        r == FloatBits(0),
{
    FloatBits(0)
}

/// The default Gemini output budget, 1024 tokens.
pub fn default_gemini_max_output_tokens() -> (r: u32)
    ensures
        r == 1024,
{
    1024
}

/// The default minimum speech kept by the trimmer, 120 ms.
pub fn default_fast_vad_min_speech_ms() -> (r: u32)
    ensures
        r == 120,
{
    120
}

/// The default silence timeout of the trimmer, 500 ms.
pub fn default_fast_vad_silence_timeout_ms() -> (r: u32)
    ensures
        r == 500,
{
    500
}

/// The default audio kept before speech, 120 ms.
pub fn default_fast_vad_pre_roll_ms() -> (r: u32)
    ensures
        r == 120,
{
    120
}

/// The default audio kept after speech, 150 ms.
pub fn default_fast_vad_post_roll_ms() -> (r: u32)
    ensures
        r == 150,
{
    150
}

/// The default decision window of the trimmer, 24 frames.
pub fn default_fast_vad_volatility_window() -> (r: u32)
    ensures
        r == 24,
{
    24
}

/// The default ratio above which the trimmer grows more aggressive, 0.35.
pub fn default_fast_vad_volatility_increase_threshold() -> (r: FloatBits)
    ensures
        r == FloatBits(0x3EB33333),
{
    FloatBits(0x3EB33333)
}

/// The default ratio below which the trimmer relaxes, 0.12.
pub fn default_fast_vad_volatility_decrease_threshold() -> (r: FloatBits)
    ensures
        r == FloatBits(0x3DF5C28F),
{
    FloatBits(0x3DF5C28F)
}

/// The default Parakeet model directory, relative to the data directory.
pub fn default_parakeet_model_dir() -> (r: String)
    ensures
        r@ == "models/parakeet/parakeet-tdt-0.6b-v3-onnx"@,
{
    String::from_str("models/parakeet/parakeet-tdt-0.6b-v3-onnx")
}

impl Default for ShortcutsConfig {
    fn default() -> (r: Self)
        ensures
            r.hold is None,
            opt_view(r.press) == Some(default_shortcut_text()),
    {
        ShortcutsConfig { hold: None, press: Some(default_primary_shortcut()) }
    }
}

impl Default for PasteHintsConfig {
    fn default() -> (r: Self)
        ensures
            r.shift@.len() == 0,
            r.shift_insert@.len() == 0,
    {
        PasteHintsConfig { shift: Vec::new(), shift_insert: Vec::new() }
    }
}

/// The default voice activity detection settings: disabled, the Silero model, and the
/// default thresholds and durations.
pub open spec fn is_default_vad(v: VadConfig) -> bool {
    &&& !v.enabled
    &&& v.model@ == "ggml-silero-v5.1.2.bin"@
    &&& v.threshold == FloatBits(0x3F000000)
    &&& v.min_speech_ms == 250
    &&& v.min_silence_ms == 100
    &&& v.max_speech_s == FloatBits(0x7F800000)
    &&& v.speech_pad_ms == 30
    &&& v.samples_overlap == FloatBits(0x3DCCCCCD)
}

impl Default for VadConfig {
    fn default() -> (r: Self)
        ensures
            is_default_vad(r),
    {
        VadConfig {
            enabled: false,
            model: default_vad_model(),
            threshold: default_vad_threshold(),
            min_speech_ms: default_vad_min_speech_ms(),
            min_silence_ms: default_vad_min_silence_ms(),
            max_speech_s: default_vad_max_speech_s(),
            speech_pad_ms: default_vad_speech_pad_ms(),
            samples_overlap: default_vad_samples_overlap(),
        }
    }
}

impl Default for FastVadProfileConfig {
    fn default() -> (r: Self)
        ensures
            r == FastVadProfileConfig::Aggressive,
    {
        FastVadProfileConfig::Aggressive
    }
}

/// The default trimmer settings.
pub open spec fn default_fast_vad() -> FastVadConfig {
    FastVadConfig {
        enabled: false,
        profile: FastVadProfileConfig::Aggressive,
        min_speech_ms: 120,
        silence_timeout_ms: 500,
        pre_roll_ms: 120,
        post_roll_ms: 150,
        volatility_window: 24,
        volatility_increase_threshold: FloatBits(0x3EB33333),
        volatility_decrease_threshold: FloatBits(0x3DF5C28F),
    }
}

impl Default for FastVadConfig {
    fn default() -> (r: Self)
        ensures
            r == default_fast_vad(),
    {
        FastVadConfig {
            enabled: false,
            profile: FastVadProfileConfig::default(),
            min_speech_ms: default_fast_vad_min_speech_ms(),
            silence_timeout_ms: default_fast_vad_silence_timeout_ms(),
            pre_roll_ms: default_fast_vad_pre_roll_ms(),
            post_roll_ms: default_fast_vad_post_roll_ms(),
            volatility_window: default_fast_vad_volatility_window(),
            volatility_increase_threshold: default_fast_vad_volatility_increase_threshold(),
            volatility_decrease_threshold: default_fast_vad_volatility_decrease_threshold(),
        }
    }
}

/// The default whisper.cpp settings.
pub open spec fn is_default_whisper_cpp(w: WhisperCppConfig) -> bool {
    &&& w.prompt@ == default_prompt_text()
    &&& w.model@ == "base"@
    &&& w.threads == 4
    &&& w.gpu_layers == 999
    &&& !w.fallback_cli
    &&& w.no_speech_threshold == FloatBits(0x3F19999A)
    &&& w.models_dirs@.len() == 1
    &&& w.models_dirs@[0]@ == default_models_dir_text()
    &&& is_default_vad(w.vad)
}

impl Default for WhisperCppConfig {
    fn default() -> (r: Self)
        ensures
            is_default_whisper_cpp(r),
    {
        WhisperCppConfig {
            prompt: default_whisper_prompt(),
            model: default_model(),
            threads: default_threads(),
            gpu_layers: default_gpu_layers(),
            fallback_cli: false,
            no_speech_threshold: default_no_speech_threshold(),
            models_dirs: default_models_dirs(),
            vad: VadConfig::default(),
        }
    }
}

/// The default Groq settings.
pub open spec fn is_default_groq(g: GroqConfig) -> bool {
    &&& g.model@ == "whisper-large-v3-turbo"@
    &&& g.endpoint@ == "https://api.groq.com/openai/v1/audio/transcriptions"@
    &&& g.prompt@ == default_prompt_text()
}

impl Default for GroqConfig {
    fn default() -> (r: Self)
        ensures
            is_default_groq(r),
    {
        GroqConfig {
            model: default_groq_model(),
            endpoint: default_groq_endpoint(),
            prompt: default_whisper_prompt(),
        }
    }
}

/// The default Gemini settings.
pub open spec fn is_default_gemini(g: GeminiConfig) -> bool {
    &&& g.model@ == "gemini-2.5-pro-exp-0827"@
    &&& g.endpoint@ == "https://generativelanguage.googleapis.com/v1beta/models"@
    &&& g.temperature == FloatBits(0)
    &&& g.max_output_tokens == 1024
    &&& g.prompt@ == default_prompt_text()
}

impl Default for GeminiConfig {
    fn default() -> (r: Self)
        ensures
            is_default_gemini(r),
    {
        GeminiConfig {
            model: default_gemini_model(),
            endpoint: default_gemini_endpoint(),
            temperature: default_gemini_temperature(),
            max_output_tokens: default_gemini_max_output_tokens(),
            prompt: default_whisper_prompt(),
        }
    }
}

/// The default Parakeet settings.
pub open spec fn is_default_parakeet(p: ParakeetConfig) -> bool {
    &&& p.model_dir@ == "models/parakeet/parakeet-tdt-0.6b-v3-onnx"@
    &&& p.prompt@ == default_prompt_text()
}

impl Default for ParakeetConfig {
    fn default() -> (r: Self)
        ensures
            is_default_parakeet(r),
    {
        ParakeetConfig { model_dir: default_parakeet_model_dir(), prompt: default_whisper_prompt() }
    }
}

impl Default for ValueSource {
    fn default() -> (r: Self)
        ensures
            r.env is None,
            r.value is None,
    {
        ValueSource { env: None, value: None }
    }
}

impl Default for SecretSource {
    fn default() -> (r: Self)
        ensures
            r.env is None,
            r.file is None,
            r.file_env is None,
    {
        SecretSource { env: None, file: None, file_env: None }
    }
}

/// The default custom provider: OpenAI-style transcriptions at
/// `/v1/audio/transcriptions`, WAV uploads, no base URL, model, key, headers or fields.
pub open spec fn is_default_custom_provider(c: CustomProviderConfig) -> bool {
    &&& c.kind == CustomProviderKind::OpenAiAudioTranscriptions
    &&& c.label is None
    &&& c.base_url.env is None
    &&& c.base_url.value is None
    &&& c.endpoint@ == "/v1/audio/transcriptions"@
    &&& c.model@.len() == 0
    &&& c.audio_format@ == "wav"@
    &&& c.api_key.env is None
    &&& c.api_key.file is None
    &&& c.api_key.file_env is None
    &&& c.headers@.len() == 0
    &&& c.body@.len() == 0
    &&& c.prompt@ == default_prompt_text()
}

impl Default for CustomProviderConfig {
    fn default() -> (r: Self)
        ensures
            is_default_custom_provider(r),
    {
        CustomProviderConfig {
            kind: CustomProviderKind::OpenAiAudioTranscriptions,
            label: None,
            base_url: ValueSource::default(),
            endpoint: String::from_str("/v1/audio/transcriptions"),
            model: String::new(),
            audio_format: String::from_str("wav"),
            api_key: SecretSource::default(),
            headers: Vec::new(),
            body: Vec::new(),
            prompt: default_whisper_prompt(),
        }
    }
}

/// The default transcription settings: whisper.cpp, a 45 s timeout, two retries, each
/// back-end's defaults and no custom provider.
pub open spec fn is_default_transcription(t: TranscriptionConfig) -> bool {
    &&& t.provider == TranscriptionProvider::WhisperCpp
    &&& t.request_timeout_secs == 45
    &&& t.max_retries == 2
    &&& is_default_whisper_cpp(t.whisper_cpp)
    &&& is_default_groq(t.groq)
    &&& is_default_gemini(t.gemini)
    &&& is_default_parakeet(t.parakeet)
    &&& t.custom@.len() == 0
}

impl Default for TranscriptionConfig {
    fn default() -> (r: Self)
        ensures
            is_default_transcription(r),
    {
        TranscriptionConfig {
            provider: TranscriptionProvider::default(),
            request_timeout_secs: default_transcription_request_timeout_secs(),
            max_retries: default_transcription_max_retries(),
            whisper_cpp: WhisperCppConfig::default(),
            groq: GroqConfig::default(),
            gemini: GeminiConfig::default(),
            parakeet: ParakeetConfig::default(),
            custom: Vec::new(),
        }
    }
}

} // verus!
