use hyprwhspr_rs::config::{config_load_plan, reload_decision, should_reload, ConfigLoadPlan};
use hyprwhspr_rs::config::{
    Config, CustomProviderConfig, FastVadProfileConfig, FloatBits, ShortcutsConfig, VadConfig,
};
use hyprwhspr_rs::defaults;
use hyprwhspr_rs::provider::TranscriptionProvider;

const PROMPT: &str = "Transcribe as technical documentation with proper capitalization, acronyms, and technical terminology. Do not add punctuation.";

#[test]
fn default_config_matches_documented_values() {
    let c = Config::default();
    assert_eq!(c.primary_shortcut, "SUPER+ALT+R");
    assert_eq!(c.shortcuts.press.as_deref(), Some("SUPER+ALT+R"));
    assert_eq!(c.shortcuts.hold, None);
    assert!(!c.audio_feedback);
    assert_eq!(f32::from_bits(c.start_sound_volume.0), 0.3f32);
    assert_eq!(f32::from_bits(c.stop_sound_volume.0), 0.3f32);
    assert!(c.auto_copy_clipboard);
    assert!(c.shift_paste);
    assert!(!c.global_paste_shortcut);
    assert_eq!(c.audio_device, None);
    assert!(!c.fast_vad.enabled);
    assert_eq!(c.fast_vad.profile, FastVadProfileConfig::Aggressive);
    assert_eq!(c.fast_vad.min_speech_ms, 120);
    assert_eq!(c.fast_vad.silence_timeout_ms, 500);
    assert_eq!(c.fast_vad.pre_roll_ms, 120);
    assert_eq!(c.fast_vad.post_roll_ms, 150);
    assert_eq!(c.fast_vad.volatility_window, 24);
    assert_eq!(f32::from_bits(c.fast_vad.volatility_increase_threshold.0), 0.35f32);
    assert_eq!(f32::from_bits(c.fast_vad.volatility_decrease_threshold.0), 0.12f32);

    let t = &c.transcription;
    assert_eq!(t.provider, TranscriptionProvider::WhisperCpp);
    assert_eq!(t.request_timeout_secs, 45);
    assert_eq!(t.max_retries, 2);
    assert_eq!(t.whisper_cpp.prompt, PROMPT);
    assert_eq!(t.whisper_cpp.model, "base");
    assert_eq!(t.whisper_cpp.threads, 4);
    assert_eq!(t.whisper_cpp.gpu_layers, 999);
    assert!(!t.whisper_cpp.fallback_cli);
    assert_eq!(f32::from_bits(t.whisper_cpp.no_speech_threshold.0), 0.6f32);
    assert_eq!(t.whisper_cpp.models_dirs, vec!["~/.local/share/hyprwhspr-rs/models".to_string()]);
    let vad = &t.whisper_cpp.vad;
    assert!(!vad.enabled);
    assert_eq!(vad.model, "ggml-silero-v5.1.2.bin");
    assert_eq!(f32::from_bits(vad.threshold.0), 0.5f32);
    assert_eq!(vad.min_speech_ms, 250);
    assert_eq!(vad.min_silence_ms, 100);
    assert_eq!(f32::from_bits(vad.max_speech_s.0), f32::INFINITY);
    assert_eq!(vad.speech_pad_ms, 30);
    assert_eq!(f32::from_bits(vad.samples_overlap.0), 0.1f32);
    assert_eq!(t.groq.model, "whisper-large-v3-turbo");
    assert_eq!(t.groq.endpoint, "https://api.groq.com/openai/v1/audio/transcriptions");
    assert_eq!(t.groq.prompt, PROMPT);
    assert_eq!(t.gemini.model, "gemini-2.5-pro-exp-0827");
    assert_eq!(t.gemini.endpoint, "https://generativelanguage.googleapis.com/v1beta/models");
    assert_eq!(f32::from_bits(t.gemini.temperature.0), 0.0f32);
    assert_eq!(t.gemini.max_output_tokens, 1024);
    assert_eq!(t.parakeet.model_dir, "models/parakeet/parakeet-tdt-0.6b-v3-onnx");
    assert!(t.custom.is_empty());
    assert_eq!(c.legacy_model, None);
    assert_eq!(c.legacy_vad, None);
}

#[test]
fn default_custom_provider_values() {
    let c = CustomProviderConfig::default();
    assert_eq!(c.endpoint, "/v1/audio/transcriptions");
    assert_eq!(c.audio_format, "wav");
    assert_eq!(c.model, "");
    assert_eq!(c.label, None);
    assert_eq!(c.prompt, PROMPT);
    assert!(c.headers.is_empty() && c.body.is_empty());
}

#[test]
fn float_setting_encodings() {
    assert!(defaults::is_float_non_finite(&defaults::default_vad_max_speech_s()));
    assert!(!defaults::is_float_non_finite(&FloatBits(15.0f32.to_bits())));
    assert!(defaults::is_float_non_finite(&FloatBits(f32::NAN.to_bits())));
    assert!(defaults::is_float_non_finite(&FloatBits(f32::NEG_INFINITY.to_bits())));
    assert_eq!(defaults::default_gpu_layers(), 999);
    assert_eq!(defaults::default_threads(), 4);
    assert_eq!(defaults::default_vad_speech_pad_ms(), 30);
}

fn config_with_shortcuts(primary: &str, press: Option<&str>, hold: Option<&str>) -> Config {
    let mut c = Config::default();
    c.primary_shortcut = primary.to_string();
    c.shortcuts = ShortcutsConfig {
        press: press.map(str::to_string),
        hold: hold.map(str::to_string),
    };
    c
}

#[test]
fn normalize_trims_and_drops_blank_shortcuts() {
    let mut c = config_with_shortcuts("SUPER+ALT+R", Some("  SUPER+ALT+D "), Some("   "));
    c.normalize_shortcuts();
    // A default primary shortcut with no hold shortcut replaces the press shortcut.
    assert_eq!(c.shortcuts.press.as_deref(), Some("SUPER+ALT+R"));
    assert_eq!(c.shortcuts.hold, None);
    assert_eq!(c.primary_shortcut, "SUPER+ALT+R");
    assert_eq!(c.press_shortcut(), Some("SUPER+ALT+R"));
    assert_eq!(c.hold_shortcut(), None);
}

#[test]
fn normalize_keeps_press_when_hold_is_set() {
    let mut c = config_with_shortcuts("SUPER+ALT+R", Some("SUPER+ALT+D"), Some(" SUPER+ALT+CTRL "));
    c.normalize_shortcuts();
    assert_eq!(c.shortcuts.press.as_deref(), Some("SUPER+ALT+D"));
    assert_eq!(c.shortcuts.hold.as_deref(), Some("SUPER+ALT+CTRL"));
    assert_eq!(c.primary_shortcut, "SUPER+ALT+D");
}

#[test]
fn normalize_legacy_primary_replaces_press() {
    let mut c = config_with_shortcuts(" CTRL+F1 ", Some("SUPER+ALT+D"), Some("ALT+X"));
    c.normalize_shortcuts();
    assert_eq!(c.shortcuts.press.as_deref(), Some("CTRL+F1"));
    assert_eq!(c.primary_shortcut, "CTRL+F1");
}

#[test]
fn normalize_hold_only_keeps_no_press() {
    let mut c = config_with_shortcuts("SUPER+ALT+R", None, Some("ALT+X"));
    c.normalize_shortcuts();
    assert_eq!(c.shortcuts.press, None);
    assert_eq!(c.primary_shortcut, "SUPER+ALT+R");
    let once = c.clone();
    c.normalize_shortcuts();
    assert_eq!(c, once);
}

#[test]
fn normalize_twice_is_normalize_once() {
    for (primary, press, hold) in [
        ("SUPER+ALT+R", Some(" A "), None),
        ("  B ", None, Some("C")),
        ("", Some("D"), Some("  ")),
        ("SUPER+ALT+R", None, Some(" E")),
    ] {
        let mut c = config_with_shortcuts(primary, press, hold);
        c.normalize_shortcuts();
        let once = c.clone();
        c.normalize_shortcuts();
        assert_eq!(c, once);
    }
}

#[test]
fn normalize_all_blank_is_not_idempotent() {
    let mut c = config_with_shortcuts("  ", None, None);
    c.normalize_shortcuts();
    assert_eq!(c.shortcuts.press, None);
    assert_eq!(c.primary_shortcut, "SUPER+ALT+R");
    c.normalize_shortcuts();
    assert_eq!(c.shortcuts.press.as_deref(), Some("SUPER+ALT+R"));
}

#[test]
fn default_config_is_normalized() {
    let mut c = Config::default();
    let before = c.clone();
    c.normalize_shortcuts();
    assert_eq!(c, before);
}

#[test]
fn migrate_moves_legacy_settings() {
    let mut c = Config::default();
    c.legacy_model = Some("small.en".to_string());
    c.legacy_threads = Some(8);
    c.legacy_gpu_layers = Some(0);
    c.legacy_whisper_prompt = Some("Notes.".to_string());
    c.legacy_models_dirs = Some(vec!["/models".to_string()]);
    c.legacy_no_speech_threshold = Some(FloatBits(0.4f32.to_bits()));
    c.legacy_fallback_cli = Some(true);
    let mut vad = VadConfig::default();
    vad.enabled = true;
    c.legacy_vad = Some(vad.clone());
    c.migrate_legacy_transcription_settings();
    let w = &c.transcription.whisper_cpp;
    assert_eq!(w.model, "small.en");
    assert_eq!(w.threads, 8);
    assert_eq!(w.gpu_layers, 0);
    assert_eq!(w.prompt, "Notes.");
    assert_eq!(c.transcription.groq.prompt, "Notes.");
    assert_eq!(c.transcription.gemini.prompt, "Notes.");
    assert_eq!(c.transcription.parakeet.prompt, "Notes.");
    assert_eq!(w.models_dirs, vec!["/models".to_string()]);
    assert_eq!(f32::from_bits(w.no_speech_threshold.0), 0.4f32);
    assert!(w.fallback_cli);
    assert_eq!(w.vad, vad);
    assert_eq!(c.legacy_model, None);
    assert_eq!(c.legacy_threads, None);
    assert_eq!(c.legacy_whisper_prompt, None);
    assert_eq!(c.legacy_vad, None);
    let once = c.clone();
    c.migrate_legacy_transcription_settings();
    assert_eq!(c, once);
}

#[test]
fn finish_loading_migrates_then_normalizes() {
    let mut c = config_with_shortcuts(" X ", None, None);
    c.legacy_threads = Some(2);
    c.finish_loading();
    assert_eq!(c.transcription.whisper_cpp.threads, 2);
    assert_eq!(c.shortcuts.press.as_deref(), Some("X"));
    assert_eq!(c.primary_shortcut, "X");
}

#[test]
fn custom_provider_lookup_by_name() {
    let mut c = Config::default();
    let mut remote = CustomProviderConfig::default();
    remote.model = "whisper-large-v3".to_string();
    c.transcription.custom.push(("local".to_string(), CustomProviderConfig::default()));
    c.transcription.custom.push(("remote_whisper".to_string(), remote));
    let found = c.transcription.custom_provider("remote_whisper").expect("custom provider");
    assert_eq!(found.model, "whisper-large-v3");
    assert!(c.transcription.custom_provider("missing").is_none());
}

#[test]
fn load_prefers_jsonc_then_legacy_then_defaults() {
    assert_eq!(config_load_plan(true, true), ConfigLoadPlan::ReadJsonc);
    assert_eq!(config_load_plan(true, false), ConfigLoadPlan::ReadJsonc);
    assert_eq!(config_load_plan(false, true), ConfigLoadPlan::MigrateLegacy);
    assert_eq!(config_load_plan(false, false), ConfigLoadPlan::WriteDefault);
}

fn pair(k: &str, v: &str) -> (String, String) {
    (k.to_string(), v.to_string())
}

#[test]
fn configs_compare_pair_lists_as_maps() {
    let mut a = Config::default();
    let mut b = Config::default();
    a.word_overrides = vec![pair("teh", "the"), pair("recieve", "receive")];
    b.word_overrides = vec![pair("recieve", "receive"), pair("teh", "the")];
    assert!(a == b);
    b.word_overrides = vec![pair("recieve", "receive"), pair("teh", "ten")];
    assert!(a != b);
    b.word_overrides = vec![pair("teh", "ten"), pair("recieve", "receive"), pair("teh", "the")];
    assert!(a == b);

    let mut x = CustomProviderConfig::default();
    let mut y = CustomProviderConfig::default();
    x.headers = vec![pair("x-a", "1"), pair("x-b", "2")];
    y.headers = vec![pair("x-b", "2"), pair("x-a", "1")];
    assert_eq!(x, y);
    y.body = vec![pair("temperature", "0")];
    assert_ne!(x, y);

    a.word_overrides.clear();
    b.word_overrides.clear();
    a.transcription.custom = vec![("one".to_string(), x.clone()), ("two".to_string(), y.clone())];
    b.transcription.custom = vec![("two".to_string(), y.clone()), ("one".to_string(), x.clone())];
    assert!(a == b);
    b.transcription.custom = vec![("two".to_string(), x.clone()), ("one".to_string(), x)];
    assert!(a != b);
}

#[test]
fn configs_compare_numbers_as_floats() {
    assert_eq!(FloatBits(0.0f32.to_bits()), FloatBits((-0.0f32).to_bits()));
    assert_ne!(FloatBits(f32::NAN.to_bits()), FloatBits(f32::NAN.to_bits()));
    assert_ne!(FloatBits(1.0f32.to_bits()), FloatBits(2.0f32.to_bits()));
    let a = Config::default();
    let mut b = Config::default();
    assert!(a == b);
    b.start_sound_volume = FloatBits(f32::NAN.to_bits());
    let c = b.clone();
    assert!(b != c);
    let mut d = Config::default();
    d.transcription.gemini.temperature = FloatBits((-0.0f32).to_bits());
    assert!(a == d);
}

#[test]
fn custom_provider_lookup_takes_last_duplicate() {
    let mut c = Config::default();
    let mut second = CustomProviderConfig::default();
    second.model = "second".to_string();
    c.transcription.custom.push(("dup".to_string(), CustomProviderConfig::default()));
    c.transcription.custom.push(("dup".to_string(), second));
    assert_eq!(c.transcription.custom_provider("dup").expect("provider").model, "second");
}

#[test]
fn watcher_reloads_only_on_a_changed_file() {
    assert!(!should_reload(None, None));
    assert!(!should_reload(Some((10, 5, 100)), Some((10, 5, 100))));
    assert!(should_reload(Some((10, 5, 100)), Some((10, 6, 100))));
    assert!(should_reload(Some((10, 5, 100)), Some((10, 5, 101))));
    assert!(should_reload(Some((10, 5, 100)), Some((11, 5, 100))));
    assert!(should_reload(None, Some((10, 5, 100))));
    assert!(should_reload(Some((10, 5, 100)), None));
}

#[test]
fn watcher_publishes_only_a_changed_config() {
    let current = Config::default();
    assert!(reload_decision(&current, None).is_none());
    assert!(reload_decision(&current, Some(Config::default())).is_none());
    let mut changed = Config::default();
    changed.audio_feedback = !current.audio_feedback;
    let published = reload_decision(&current, Some(changed.clone())).expect("published");
    assert!(published == changed);
}
