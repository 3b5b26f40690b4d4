//! The configuration model, its defaults, and the rules that tidy a loaded configuration.
use crate::provider::TranscriptionProvider;
use crate::defaults::{
    default_fast_vad, default_primary_shortcut, default_shortcut_text, default_volume,
    is_default_transcription,
};
use crate::text::{lemma_trim_fixed, lemma_trim_idempotent, str_eq, trim, trim_str};
use crate::custom_openai::pairs_view;
use crate::equality::{config_same, distinct_keys, find_custom, keyed, lookup};
use vstd::prelude::*;

verus! {

/// The IEEE 754 single-precision encoding of a configuration number. The library stores
/// and copies such numbers; converting them to and from their numeric form is done where
/// configuration files are read and written.
#[derive(Debug, Clone, Copy)]
pub struct FloatBits(pub u32);

/// The view of an optional text.
pub open spec fn opt_view(o: Option<String>) -> Option<Seq<char>> {
    match o {
        Some(s) => Some(s@),
        None => None,
    }
}

/// The views of a list of texts.
pub open spec fn texts_view(v: Seq<String>) -> Seq<Seq<char>> {
    v.map_values(|s: String| s@)
}

/// Keyboard shortcuts: one that toggles recording on a press, one that records while held.
#[derive(Debug, Clone, PartialEq)]
pub struct ShortcutsConfig {
    pub hold: Option<String>,
    pub press: Option<String>,
}

/// Window classes that need a particular paste key combination.
#[derive(Debug, Clone, PartialEq)]
pub struct PasteHintsConfig {
    pub shift: Vec<String>,
    pub shift_insert: Vec<String>,
}

/// Settings of whisper.cpp's own voice activity detection.
#[derive(Debug, Clone, PartialEq)]
pub struct VadConfig {
    pub enabled: bool,
    pub model: String,
    pub threshold: FloatBits,
    pub min_speech_ms: u32,
    pub min_silence_ms: u32,
    pub max_speech_s: FloatBits,
    pub speech_pad_ms: u32,
    pub samples_overlap: FloatBits,
}

/// Aggressiveness profile of the built-in silence trimmer.
#[derive(Debug, Clone, Copy, PartialEq, Eq, Structural)]
pub enum FastVadProfileConfig {
    Quality,
    LowBitrate,
    Aggressive,
    VeryAggressive,
}

/// Settings of the silence trimmer that runs before any provider sees the audio.
#[derive(Debug, Clone, Copy, PartialEq)]
pub struct FastVadConfig {
    pub enabled: bool,
    pub profile: FastVadProfileConfig,
    pub min_speech_ms: u32,
    pub silence_timeout_ms: u32,
    pub pre_roll_ms: u32,
    pub post_roll_ms: u32,
    pub volatility_window: u32,
    pub volatility_increase_threshold: FloatBits,
    pub volatility_decrease_threshold: FloatBits,
}

/// Settings of the local whisper.cpp back-end.
#[derive(Debug, Clone, PartialEq)]
pub struct WhisperCppConfig {
    pub prompt: String,
    pub model: String,
    pub threads: usize,
    pub gpu_layers: i32,
    pub fallback_cli: bool,
    pub no_speech_threshold: FloatBits,
    pub models_dirs: Vec<String>,
    pub vad: VadConfig,
}

/// Settings of the Groq back-end.
#[derive(Debug, Clone, PartialEq)]
pub struct GroqConfig {
    pub model: String,
    pub endpoint: String,
    pub prompt: String,
}

/// Settings of the Gemini back-end.
#[derive(Debug, Clone, PartialEq)]
pub struct GeminiConfig {
    pub model: String,
    pub endpoint: String,
    pub temperature: FloatBits,
    pub max_output_tokens: u32,
    pub prompt: String,
}

/// Settings of the Parakeet back-end.
#[derive(Debug, Clone, PartialEq)]
pub struct ParakeetConfig {
    pub model_dir: String,
    pub prompt: String,
}

/// The protocol a custom provider speaks.
#[derive(Debug, Clone, Copy, PartialEq, Eq, Structural)]
pub enum CustomProviderKind {
    OpenAiAudioTranscriptions,
}

/// A setting given by an environment variable, a literal value, or both.
#[derive(Debug, Clone, PartialEq, Eq)]
pub struct ValueSource {
    pub env: Option<String>,
    pub value: Option<String>,
}

/// A secret given by a file named in an environment variable, a file, or an
/// environment variable.
#[derive(Debug, Clone, PartialEq, Eq)]
pub struct SecretSource {
    pub env: Option<String>,
    pub file: Option<String>,
    pub file_env: Option<String>,
}

/// A custom OpenAI-compatible transcription endpoint. `headers` and `body` are lists of
/// name/value pairs that stand for maps (see `equality::lookup`); read from a file they
/// have distinct names.
#[derive(Debug, Clone, Eq)]
pub struct CustomProviderConfig {
    pub kind: CustomProviderKind,
    pub label: Option<String>,
    pub base_url: ValueSource,
    pub endpoint: String,
    pub model: String,
    pub audio_format: String,
    pub api_key: SecretSource,
    pub headers: Vec<(String, String)>,
    pub body: Vec<(String, String)>,
    pub prompt: String,
}

/// Transcription settings: the selected provider and each back-end's settings. `custom`
/// maps names to custom providers (see `equality::lookup`).
#[derive(Debug, Clone)]
pub struct TranscriptionConfig {
    pub provider: TranscriptionProvider,
    pub request_timeout_secs: u64,
    pub max_retries: u32,
    pub whisper_cpp: WhisperCppConfig,
    pub groq: GroqConfig,
    pub gemini: GeminiConfig,
    pub parakeet: ParakeetConfig,
    pub custom: Vec<(String, CustomProviderConfig)>,
}

/// The whole configuration. The `legacy_*` fields hold settings that older
/// configuration files kept at the top level; they are read but never written, and
/// loading moves them into `transcription.whisper_cpp` (see
/// `migrate_legacy_transcription_settings`).
#[derive(Debug, Clone)]
pub struct Config {
    pub primary_shortcut: String,
    pub shortcuts: ShortcutsConfig,
    pub word_overrides: Vec<(String, String)>,
    pub audio_feedback: bool,
    pub start_sound_volume: FloatBits,
    pub stop_sound_volume: FloatBits,
    pub start_sound_path: Option<String>,
    pub stop_sound_path: Option<String>,
    pub auto_copy_clipboard: bool,
    pub shift_paste: bool,
    pub global_paste_shortcut: bool,
    pub paste_hints: PasteHintsConfig,
    pub audio_device: Option<usize>,
    pub fast_vad: FastVadConfig,
    pub transcription: TranscriptionConfig,
    pub legacy_model: Option<String>,
    pub legacy_threads: Option<usize>,
    pub legacy_gpu_layers: Option<i32>,
    pub legacy_whisper_prompt: Option<String>,
    pub legacy_models_dirs: Option<Vec<String>>,
    pub legacy_no_speech_threshold: Option<FloatBits>,
    pub legacy_fallback_cli: Option<bool>,
    pub legacy_vad: Option<VadConfig>,
}


/// A shortcut as written, trimmed; `None` when blank.
pub open spec fn sanitized(v: Seq<char>) -> Option<Seq<char>> {
    if trim(v).len() == 0 {
        None
    } else {
        Some(trim(v))
    }
}

/// An optional shortcut, trimmed; `None` when absent or blank.
pub open spec fn sanitized_opt(o: Option<Seq<char>>) -> Option<Seq<char>> {
    match o {
        Some(v) => sanitized(v),
        None => None,
    }
}

/// No name occurs twice in any of the configuration's name/value lists: the word
/// overrides, the custom providers, and each custom provider's headers and body fields.
/// A configuration read from a file has this property, since it is read into maps.
pub open spec fn config_keys_distinct(c: Config) -> bool {
    &&& distinct_keys(pairs_view(c.word_overrides@))
    &&& distinct_keys(keyed(c.transcription.custom@))
    &&& forall|i: int|
        0 <= i < c.transcription.custom@.len() ==> {
            &&& distinct_keys(pairs_view(#[trigger] c.transcription.custom@[i].1.headers@))
            &&& distinct_keys(pairs_view(c.transcription.custom@[i].1.body@))
        }
}

/// Whether a configuration's names are distinct depends only on its name/value lists.
proof fn lemma_keys_distinct_depends_on_lists(a: Config, b: Config)
    requires
        a.word_overrides == b.word_overrides,
        a.transcription.custom == b.transcription.custom,
    ensures
        config_keys_distinct(a) == config_keys_distinct(b),
{
}

/// The shortcut settings of a configuration, as texts.
pub struct ShortcutModel {
    pub primary: Seq<char>,
    pub press: Option<Seq<char>>,
    pub hold: Option<Seq<char>>,
}

/// The shortcut settings of `c`.
pub open spec fn shortcut_model(c: Config) -> ShortcutModel {
    ShortcutModel {
        primary: c.primary_shortcut@,
        press: opt_view(c.shortcuts.press),
        hold: opt_view(c.shortcuts.hold),
    }
}

/// Tidied shortcut settings. Press and hold shortcuts are trimmed and dropped when
/// blank. A non-blank top-level `primary_shortcut` (the older way to configure the
/// shortcut) replaces the press shortcut, unless it is the default shortcut and a hold
/// shortcut is set. The primary shortcut becomes the press shortcut, or, without one,
/// the trimmed primary shortcut or else the default shortcut.
pub open spec fn normalized_shortcuts(m: ShortcutModel) -> ShortcutModel {
    let legacy = sanitized(m.primary);
    let press = sanitized_opt(m.press);
    let hold = sanitized_opt(m.hold);
    let new_press = match legacy {
        Some(l) => if l == default_shortcut_text() && hold is Some {
            press
        } else {
            Some(l)
        },
        None => press,
    };
    let primary = match new_press {
        Some(p) => p,
        None => match legacy {
            Some(l) => l,
            None => default_shortcut_text(),
        },
    };
    ShortcutModel { primary, press: new_press, hold }
}

/// `a` and `b` agree on everything but the shortcut settings.
pub open spec fn same_but_shortcuts(a: Config, b: Config) -> bool {
    &&& a.word_overrides == b.word_overrides
    &&& a.audio_feedback == b.audio_feedback
    &&& a.start_sound_volume == b.start_sound_volume
    &&& a.stop_sound_volume == b.stop_sound_volume
    &&& a.start_sound_path == b.start_sound_path
    &&& a.stop_sound_path == b.stop_sound_path
    &&& a.auto_copy_clipboard == b.auto_copy_clipboard
    &&& a.shift_paste == b.shift_paste
    &&& a.global_paste_shortcut == b.global_paste_shortcut
    &&& a.paste_hints == b.paste_hints
    &&& a.audio_device == b.audio_device
    &&& a.fast_vad == b.fast_vad
    &&& a.transcription == b.transcription
    &&& a.legacy_model == b.legacy_model
    &&& a.legacy_threads == b.legacy_threads
    &&& a.legacy_gpu_layers == b.legacy_gpu_layers
    &&& a.legacy_whisper_prompt == b.legacy_whisper_prompt
    &&& a.legacy_models_dirs == b.legacy_models_dirs
    &&& a.legacy_no_speech_threshold == b.legacy_no_speech_threshold
    &&& a.legacy_fallback_cli == b.legacy_fallback_cli
    &&& a.legacy_vad == b.legacy_vad
}

/// `n` is `o` with the legacy top-level settings moved into the whisper.cpp settings
/// (a legacy prompt goes to every back-end's prompt), all legacy settings cleared, and
/// everything else unchanged.
pub open spec fn migrated_from(n: Config, o: Config) -> bool {
    let t = n.transcription;
    let ot = o.transcription;
    let w = t.whisper_cpp;
    let ow = ot.whisper_cpp;
    &&& n.legacy_model is None
    &&& n.legacy_threads is None
    &&& n.legacy_gpu_layers is None
    &&& n.legacy_whisper_prompt is None
    &&& n.legacy_models_dirs is None
    &&& n.legacy_no_speech_threshold is None
    &&& n.legacy_fallback_cli is None
    &&& n.legacy_vad is None
    &&& w.model == (match o.legacy_model {
        Some(m) => m,
        None => ow.model,
    })
    &&& w.threads == (match o.legacy_threads {
        Some(x) => x,
        None => ow.threads,
    })
    &&& w.gpu_layers == (match o.legacy_gpu_layers {
        Some(x) => x,
        None => ow.gpu_layers,
    })
    &&& w.models_dirs == (match o.legacy_models_dirs {
        Some(x) => x,
        None => ow.models_dirs,
    })
    &&& w.no_speech_threshold == (match o.legacy_no_speech_threshold {
        Some(x) => x,
        None => ow.no_speech_threshold,
    })
    &&& w.fallback_cli == (match o.legacy_fallback_cli {
        Some(x) => x,
        None => ow.fallback_cli,
    })
    &&& w.vad == (match o.legacy_vad {
        Some(x) => x,
        None => ow.vad,
    })
    &&& match o.legacy_whisper_prompt {
        Some(p) => {
            &&& w.prompt@ == p@
            &&& t.groq.prompt@ == p@
            &&& t.gemini.prompt@ == p@
            &&& t.parakeet.prompt@ == p@
        },
        None => {
            &&& w.prompt == ow.prompt
            &&& t.groq.prompt == ot.groq.prompt
            &&& t.gemini.prompt == ot.gemini.prompt
            &&& t.parakeet.prompt == ot.parakeet.prompt
        },
    }
    &&& t.provider == ot.provider
    &&& t.request_timeout_secs == ot.request_timeout_secs
    &&& t.max_retries == ot.max_retries
    &&& t.custom == ot.custom
    &&& t.groq.model == ot.groq.model
    &&& t.groq.endpoint == ot.groq.endpoint
    &&& t.gemini.model == ot.gemini.model
    &&& t.gemini.endpoint == ot.gemini.endpoint
    &&& t.gemini.temperature == ot.gemini.temperature
    &&& t.gemini.max_output_tokens == ot.gemini.max_output_tokens
    &&& t.parakeet.model_dir == ot.parakeet.model_dir
    &&& n.primary_shortcut == o.primary_shortcut
    &&& n.shortcuts == o.shortcuts
    &&& n.word_overrides == o.word_overrides
    &&& n.audio_feedback == o.audio_feedback
    &&& n.start_sound_volume == o.start_sound_volume
    &&& n.stop_sound_volume == o.stop_sound_volume
    &&& n.start_sound_path == o.start_sound_path
    &&& n.stop_sound_path == o.stop_sound_path
    &&& n.auto_copy_clipboard == o.auto_copy_clipboard
    &&& n.shift_paste == o.shift_paste
    &&& n.global_paste_shortcut == o.global_paste_shortcut
    &&& n.paste_hints == o.paste_hints
    &&& n.audio_device == o.audio_device
    &&& n.fast_vad == o.fast_vad
}

/// No legacy top-level setting is present.
pub open spec fn has_no_legacy_settings(c: Config) -> bool {
    &&& c.legacy_model is None
    &&& c.legacy_threads is None
    &&& c.legacy_gpu_layers is None
    &&& c.legacy_whisper_prompt is None
    &&& c.legacy_models_dirs is None
    &&& c.legacy_no_speech_threshold is None
    &&& c.legacy_fallback_cli is None
    &&& c.legacy_vad is None
}

impl Config {
    /// Tidies the shortcut settings as `normalized_shortcuts` describes; nothing else
    /// changes.
    pub fn normalize_shortcuts(&mut self)
        ensures
            shortcut_model(*final(self)) == normalized_shortcuts(shortcut_model(*old(self))),
            same_but_shortcuts(*final(self), *old(self)),
            config_keys_distinct(*old(self)) ==> config_keys_distinct(*final(self)),
    {
        let default_primary = default_primary_shortcut();
        let legacy_primary = Self::sanitize_shortcut(self.primary_shortcut.as_str());
        let press = match &self.shortcuts.press {
            Some(value) => Self::sanitize_shortcut(value.as_str()),
            None => None,
        };
        let hold = match &self.shortcuts.hold {
            Some(value) => Self::sanitize_shortcut(value.as_str()),
            None => None,
        };
        self.shortcuts.press = press;
        self.shortcuts.hold = hold;
        if let Some(legacy) = &legacy_primary {
            let uses_default_primary = str_eq(legacy.as_str(), default_primary.as_str());
            let has_hold_only = self.shortcuts.hold.is_some();
            if !(uses_default_primary && has_hold_only) {
                self.shortcuts.press = Some(legacy.clone());
            }
        }
        match &self.shortcuts.press {
            Some(press) => {
                self.primary_shortcut = press.clone();
            },
            None => {
                self.primary_shortcut = match legacy_primary {
                    Some(l) => l,
                    None => default_primary,
                };
            },
        }
        proof {
            lemma_keys_distinct_depends_on_lists(*old(self), *self);
        }
    }

    /// Moves the legacy top-level settings into the whisper.cpp settings, as
    /// `migrated_from` describes.
    #[verifier::rlimit(60)]
    #[verifier::spinoff_prover]
    pub fn migrate_legacy_transcription_settings(&mut self)
        ensures
            migrated_from(*final(self), *old(self)),
            config_keys_distinct(*old(self)) ==> config_keys_distinct(*final(self)),
    {
        if let Some(model) = self.legacy_model.take() {
            self.transcription.whisper_cpp.model = model;
        }
        if let Some(threads) = self.legacy_threads.take() {
            self.transcription.whisper_cpp.threads = threads;
        }
        if let Some(gpu_layers) = self.legacy_gpu_layers.take() {
            self.transcription.whisper_cpp.gpu_layers = gpu_layers;
        }
        if let Some(prompt) = self.legacy_whisper_prompt.take() {
            self.transcription.whisper_cpp.prompt = prompt.clone();
            self.transcription.groq.prompt = prompt.clone();
            self.transcription.gemini.prompt = prompt.clone();
            self.transcription.parakeet.prompt = prompt;
        }
        if let Some(dirs) = self.legacy_models_dirs.take() {
            self.transcription.whisper_cpp.models_dirs = dirs;
        }
        if let Some(threshold) = self.legacy_no_speech_threshold.take() {
            self.transcription.whisper_cpp.no_speech_threshold = threshold;
        }
        if let Some(fallback_cli) = self.legacy_fallback_cli.take() {
            self.transcription.whisper_cpp.fallback_cli = fallback_cli;
        }
        if let Some(vad) = self.legacy_vad.take() {
            self.transcription.whisper_cpp.vad = vad;
        }
    }

    /// The press shortcut, if any.
    pub fn press_shortcut(&self) -> (r: Option<&str>)
        ensures
            match r {
                Some(s) => opt_view(self.shortcuts.press) == Some(s@),
                None => self.shortcuts.press is None,
            },
    {
        match &self.shortcuts.press {
            Some(s) => Some(s.as_str()),
            None => None,
        }
    }

    /// The hold shortcut, if any.
    pub fn hold_shortcut(&self) -> (r: Option<&str>)
        ensures
            match r {
                Some(s) => opt_view(self.shortcuts.hold) == Some(s@),
                None => self.shortcuts.hold is None,
            },
    {
        match &self.shortcuts.hold {
            Some(s) => Some(s.as_str()),
            None => None,
        }
    }

    /// The shortcut trimmed, or `None` when it is blank.
    fn sanitize_shortcut(value: &str) -> (r: Option<String>)
        ensures
            opt_view(r) == sanitized(value@),
    {
        let trimmed = trim_str(value);
        if trimmed.unicode_len() == 0 {
            None
        } else {
            Some(String::from_str(trimmed))
        }
    }
}

impl TranscriptionConfig {
    /// The custom provider configured under `name`, if any (the last one, should the name
    /// occur twice).
    pub fn custom_provider(&self, name: &str) -> (r: Option<&CustomProviderConfig>)
        ensures
            match r {
                Some(c) => lookup(keyed(self.custom@), name@) == Some(*c),
                None => lookup(keyed(self.custom@), name@) is None,
            },
    {
        find_custom(&self.custom, name)
    }
}

impl Default for Config {
    /// The default configuration: the default shortcut on press, no hold shortcut, no
    /// word overrides, feedback sounds off at volume 0.3, clipboard copy and shift paste
    /// on, each section's defaults, and no legacy settings.
    fn default() -> (r: Self)
        ensures
            r.primary_shortcut@ == default_shortcut_text(),
            opt_view(r.shortcuts.press) == Some(default_shortcut_text()),
            r.shortcuts.hold is None,
            r.word_overrides@.len() == 0,
            config_keys_distinct(r),
            !r.audio_feedback,
            r.start_sound_volume == FloatBits(0x3E99999A),
            r.stop_sound_volume == FloatBits(0x3E99999A),
            r.start_sound_path is None,
            r.stop_sound_path is None,
            r.auto_copy_clipboard,
            r.shift_paste,
            !r.global_paste_shortcut,
            r.paste_hints.shift@.len() == 0,
            r.paste_hints.shift_insert@.len() == 0,
            r.audio_device is None,
            r.fast_vad == default_fast_vad(),
            is_default_transcription(r.transcription),
            has_no_legacy_settings(r),
    {
        let mut config = Config {
            primary_shortcut: default_primary_shortcut(),
            shortcuts: ShortcutsConfig::default(),
            word_overrides: Vec::new(),
            audio_feedback: false,
            start_sound_volume: default_volume(),
            stop_sound_volume: default_volume(),
            start_sound_path: None,
            stop_sound_path: None,
            auto_copy_clipboard: true,
            shift_paste: true,
            global_paste_shortcut: false,
            paste_hints: PasteHintsConfig::default(),
            audio_device: None,
            fast_vad: FastVadConfig::default(),
            transcription: TranscriptionConfig::default(),
            legacy_model: None,
            legacy_threads: None,
            legacy_gpu_layers: None,
            legacy_whisper_prompt: None,
            legacy_models_dirs: None,
            legacy_no_speech_threshold: None,
            legacy_fallback_cli: None,
            legacy_vad: None,
        };
        proof {
            lemma_default_shortcut_is_trimmed();
        }
        config.normalize_shortcuts();
        config
    }
}

impl Config {
    /// Finishes loading a configuration read from a file: legacy settings are migrated,
    /// then the shortcut settings are tidied.
    pub fn finish_loading(&mut self)
        ensures
            shortcut_model(*final(self)) == normalized_shortcuts(shortcut_model(*old(self))),
            exists|mid: Config| migrated_from(mid, *old(self)) && same_but_shortcuts(*final(self), mid),
            config_keys_distinct(*old(self)) ==> config_keys_distinct(*final(self)),
    {
        self.migrate_legacy_transcription_settings();
        let ghost mid = *self;
        self.normalize_shortcuts();
        assert(migrated_from(mid, *old(self)) && same_but_shortcuts(*self, mid));
    }
}

/// Where the configuration comes from when it is loaded.
#[derive(Debug, Clone, Copy, PartialEq, Eq, Structural)]
pub enum ConfigLoadPlan {
    /// Read `config.jsonc`.
    ReadJsonc,
    /// Read the legacy `config.json`, then write it out as `config.jsonc`.
    MigrateLegacy,
    /// Write the default configuration to `config.jsonc`.
    WriteDefault,
}

/// Chooses where the configuration comes from: `config.jsonc` when it exists, else the
/// legacy `config.json` when that exists, else the defaults.
pub fn config_load_plan(jsonc_exists: bool, legacy_exists: bool) -> (r: ConfigLoadPlan)
    ensures
        jsonc_exists ==> r == ConfigLoadPlan::ReadJsonc,
        !jsonc_exists && legacy_exists ==> r == ConfigLoadPlan::MigrateLegacy,
        !jsonc_exists && !legacy_exists ==> r == ConfigLoadPlan::WriteDefault,
{
    if jsonc_exists {
        ConfigLoadPlan::ReadJsonc
    } else if legacy_exists {
        ConfigLoadPlan::MigrateLegacy
    } else {
        ConfigLoadPlan::WriteDefault
    }
}

/// Whether the watched configuration file must be read again: its state (modification
/// time as seconds and nanoseconds, and length; `None` when it cannot be read) differs
/// from the state seen last.
pub fn should_reload(last: Option<(u64, u32, u64)>, current: Option<(u64, u32, u64)>) -> (r: bool)
    ensures
        r == (last != current),
{
    match (last, current) {
        (None, None) => false,
        (Some(a), Some(b)) => !(a.0 == b.0 && a.1 == b.1 && a.2 == b.2),
        _ => true,
    }
}

/// What a reload publishes, given the current configuration and the one read again
/// (`None` when reading or parsing it failed): the new configuration when it differs
/// from the current one; nothing when it is equal or could not be read, so that the
/// current configuration stays.
pub fn reload_decision(current: &Config, parsed: Option<Config>) -> (r: Option<Config>)
    ensures
        match parsed {
            Some(c) => if config_same(c, *current) {
                r is None
            } else {
                r == Some(c)
            },
            None => r is None,
        },
{
    match parsed {
        Some(c) => if c == *current {
            None
        } else {
            Some(c)
        },
        None => None,
    }
}

/// The default shortcut settings are already tidy: tidying the default configuration
/// changes nothing.
pub proof fn lemma_default_shortcuts_are_normalized(m: ShortcutModel)
    requires
        m.primary == default_shortcut_text(),
        m.press == Some(default_shortcut_text()),
        m.hold is None,
    ensures
        normalized_shortcuts(m) == m,
{
    lemma_default_shortcut_is_trimmed();
}

/// The default shortcut has no surrounding whitespace and is not blank.
pub proof fn lemma_default_shortcut_is_trimmed()
    ensures
        trim(default_shortcut_text()) == default_shortcut_text(),
        default_shortcut_text().len() > 0,
{
    reveal_strlit("SUPER+ALT+R");
    lemma_trim_fixed(default_shortcut_text());
}

/// Tidying shortcut settings a second time changes nothing, unless the primary, press
/// and hold shortcuts were all blank or absent: then the first pass leaves no press
/// shortcut and sets the primary shortcut to the default, which the second pass turns
/// into a press shortcut.
pub proof fn lemma_normalize_shortcuts_idempotent(m: ShortcutModel)
    requires
        !(sanitized(m.primary) is None && sanitized_opt(m.press) is None && sanitized_opt(m.hold) is None),
    ensures
        normalized_shortcuts(normalized_shortcuts(m)) == normalized_shortcuts(m),
{
    lemma_default_shortcut_is_trimmed();
    lemma_trim_idempotent(m.primary);
    if let Some(p) = m.press {
        lemma_trim_idempotent(p);
    }
    if let Some(h) = m.hold {
        lemma_trim_idempotent(h);
    }
}

/// Migrating legacy settings a second time changes nothing.
pub proof fn lemma_migration_idempotent(a: Config, b: Config, c: Config)
    requires
        migrated_from(b, a),
        migrated_from(c, b),
    ensures
        c == b,
{
}


/// A shortcut text is kept, trimmed, unless it is blank.
pub proof fn lemma_sanitized(v: Seq<char>)
    ensures
        sanitized(v) is None <==> trim(v).len() == 0,
        sanitized(v) matches Some(x) ==> x == trim(v) && x.len() > 0,
{
}

/// How tidying settles the shortcuts. A non-blank top-level primary shortcut other than
/// the default always becomes the press shortcut, whatever press and hold shortcuts are
/// set. The default primary shortcut becomes the press shortcut only when no hold
/// shortcut is set; with a hold shortcut, or with a blank primary shortcut, the press
/// shortcut is the configured one, trimmed. The hold shortcut is the configured one,
/// trimmed. The primary shortcut ends up non-blank: the press shortcut when there is
/// one.
pub proof fn lemma_normalized_shortcut_rules(m: ShortcutModel)
    ensures
        ({
            let n = normalized_shortcuts(m);
            &&& forall|l: Seq<char>|
                sanitized(m.primary) == Some(l) && l != default_shortcut_text() ==> n.press == Some(l)
            &&& (sanitized(m.primary) == Some(default_shortcut_text()) && sanitized_opt(m.hold) is None)
                ==> n.press == Some(default_shortcut_text())
            &&& (sanitized(m.primary) == Some(default_shortcut_text()) && sanitized_opt(m.hold) is Some)
                ==> n.press == sanitized_opt(m.press)
            &&& sanitized(m.primary) is None ==> n.press == sanitized_opt(m.press)
            &&& n.hold == sanitized_opt(m.hold)
            &&& n.primary.len() > 0
            &&& n.press matches Some(p) ==> n.primary == p
            &&& (n.press is None && sanitized(m.primary) is Some) ==> Some(n.primary) == sanitized(m.primary)
        }),
{
    reveal_strlit("SUPER+ALT+R");
    lemma_sanitized(m.primary);
    match m.press {
        Some(p) => lemma_sanitized(p),
        None => {},
    }
}

} // verus!
