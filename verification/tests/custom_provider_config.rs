use hyprwhspr_rs::config::{CustomProviderConfig, CustomProviderKind, SecretSource, ValueSource};
use hyprwhspr_rs::custom_openai::{
    after_failed_attempt, attempt_count, is_absolute_endpoint, request_failure_context,
    request_failure_message, resolve_endpoint, AudioFormat, CustomOpenAiTranscriber,
    path_with_trailing_slash, CustomProviderError, RetryDecision,
};
use hyprwhspr_rs::sources::SourceError;
use std::time::Duration;

fn remote_config() -> CustomProviderConfig {
    CustomProviderConfig {
        kind: CustomProviderKind::OpenAiAudioTranscriptions,
        label: Some("Remote whisper.cpp".to_string()),
        base_url: ValueSource {
            env: Some("HYPRWHSPR_REMOTE_WHISPER_BASE_URL".to_string()),
            value: Some("http://localhost:8080".to_string()),
        },
        endpoint: "/v1/audio/transcriptions".to_string(),
        model: "whisper-large-v3".to_string(),
        audio_format: "wav".to_string(),
        api_key: SecretSource {
            env: Some("HYPRWHSPR_REMOTE_WHISPER_API_KEY".to_string()),
            file: None,
            file_env: Some("HYPRWHSPR_REMOTE_WHISPER_API_KEY_FILE".to_string()),
        },
        headers: vec![("x-provider".to_string(), "whisper.cpp".to_string())],
        body: vec![("response_format".to_string(), "json".to_string())],
        prompt: "Transcribe technical notes.".to_string(),
    }
}

#[test]
fn custom_provider_allows_absolute_endpoint_without_base_url() {
    let config = CustomProviderConfig {
        kind: CustomProviderKind::OpenAiAudioTranscriptions,
        label: Some("Fixed URL".to_string()),
        base_url: ValueSource::default(),
        endpoint: "http://127.0.0.1:18080/v1/audio/transcriptions".to_string(),
        model: "whisper-large-v3".to_string(),
        audio_format: "wav".to_string(),
        api_key: SecretSource::default(),
        headers: Default::default(),
        body: Default::default(),
        prompt: String::new(),
    };

    CustomOpenAiTranscriber::new(
        "fixed_url",
        &config,
        Duration::from_secs(5),
        0,
        String::new(),
        None,
        Ok(None),
    )
    .expect("absolute endpoint should not require base_url");
}

#[test]
fn custom_provider_resolves_relative_endpoint_against_base_url() {
    let config = remote_config();
    let t = CustomOpenAiTranscriber::new(
        "remote_whisper",
        &config,
        Duration::from_secs(30),
        2,
        "prompt".to_string(),
        None,
        Ok(Some("secret".to_string())),
    )
    .expect("custom transcriber");
    assert_eq!(t.endpoint, "http://localhost:8080/v1/audio/transcriptions");
    assert_eq!(t.provider_name(), "Remote whisper.cpp");
    assert_eq!(t.api_key.as_deref(), Some("secret"));
    assert_eq!(t.audio_format, AudioFormat::Wav);
    assert_eq!(t.max_retries, 2);
    assert!(t.initialize().is_ok());

    let via_env = CustomOpenAiTranscriber::new(
        "remote_whisper",
        &config,
        Duration::from_secs(30),
        2,
        String::new(),
        Some("https://remote.example/api"),
        Ok(None),
    )
    .expect("custom transcriber");
    assert_eq!(via_env.endpoint, "https://remote.example/api/v1/audio/transcriptions");
}

#[test]
fn custom_provider_default_label_and_errors() {
    let mut config = remote_config();
    config.label = None;
    config.base_url = ValueSource::default();
    let err = CustomOpenAiTranscriber::new(
        "remote",
        &config,
        Duration::from_secs(1),
        0,
        String::new(),
        None,
        Ok(None),
    )
    .unwrap_err();
    assert_eq!(
        err,
        CustomProviderError::Source(SourceError::Required { field: "base_url".to_string() })
    );
    assert_eq!(err.message(), "base_url is required");

    config.base_url.value = Some("http://localhost:8080".to_string());
    config.audio_format = " ogg ".to_string();
    let err = CustomOpenAiTranscriber::new(
        "remote",
        &config,
        Duration::from_secs(1),
        0,
        String::new(),
        None,
        Ok(None),
    )
    .unwrap_err();
    assert_eq!(
        err.message(),
        "unsupported custom provider audio_format 'ogg' (supported: wav, flac)"
    );

    config.audio_format = "flac".to_string();
    let key_error = SourceError::SecretFileEmpty {
        field: "api_key".to_string(),
        path: "/k".to_string(),
    };
    let err = CustomOpenAiTranscriber::new(
        "remote",
        &config,
        Duration::from_secs(1),
        0,
        String::new(),
        None,
        Err(key_error.clone()),
    )
    .unwrap_err();
    assert_eq!(err, CustomProviderError::Source(key_error));

    config.model = "  ".to_string();
    let t = CustomOpenAiTranscriber::new(
        "remote",
        &config,
        Duration::from_secs(1),
        0,
        String::new(),
        None,
        Ok(None),
    )
    .unwrap();
    assert_eq!(t.provider_name(), "Custom (remote)");
    assert_eq!(t.audio_format, AudioFormat::Flac);
    let err = t.initialize().unwrap_err();
    assert_eq!(
        err.message(),
        "model is required for custom transcription provider 'remote'"
    );
}

#[test]
fn endpoint_resolution_cases() {
    assert!(is_absolute_endpoint("https://x"));
    assert!(is_absolute_endpoint("http://x"));
    assert!(!is_absolute_endpoint("/v1"));
    assert!(!is_absolute_endpoint("HTTP://x"));
    assert_eq!(
        resolve_endpoint(Some("http://localhost:8080/base"), "/inference").unwrap(),
        "http://localhost:8080/base/inference"
    );
    assert_eq!(
        resolve_endpoint(Some("http://localhost:8080/base/"), "//inference").unwrap(),
        "http://localhost:8080/base/inference"
    );
    assert_eq!(
        resolve_endpoint(None, "https://API.example.com").unwrap(),
        "https://api.example.com/"
    );
    assert_eq!(resolve_endpoint(None, "/v1").unwrap_err(), CustomProviderError::BaseUrlRequired);
    let err = resolve_endpoint(Some("not a url"), "/v1").unwrap_err();
    assert_eq!(err.message(), "Invalid custom provider base_url: not a url");
    let err = resolve_endpoint(None, "http://[::1").unwrap_err();
    assert_eq!(err.message(), "Invalid custom endpoint: http://[::1");
}

#[test]
fn audio_format_from_config() {
    assert_eq!(AudioFormat::from_config(""), Ok(AudioFormat::Wav));
    assert_eq!(AudioFormat::from_config(" wav "), Ok(AudioFormat::Wav));
    assert_eq!(AudioFormat::from_config("flac"), Ok(AudioFormat::Flac));
    assert!(AudioFormat::from_config("WAV").is_err());
    assert_eq!(AudioFormat::Wav.file_name(), "audio.wav");
    assert_eq!(AudioFormat::Flac.file_name(), "audio.flac");
}

fn transcriber(body: Vec<(String, String)>, headers: Vec<(String, String)>, key: Option<&str>, prompt: &str) -> CustomOpenAiTranscriber {
    let mut config = remote_config();
    config.body = body;
    config.headers = headers;
    CustomOpenAiTranscriber::new(
        "remote",
        &config,
        Duration::from_secs(1),
        0,
        prompt.to_string(),
        None,
        Ok(key.map(str::to_string)),
    )
    .unwrap()
}

fn pair(a: &str, b: &str) -> (String, String) {
    (a.to_string(), b.to_string())
}

#[test]
fn form_fields_add_prompt_unless_body_sets_it() {
    let t = transcriber(vec![pair("temperature", "0")], vec![], None, "Notes.");
    assert_eq!(
        t.form_fields(),
        vec![
            pair("model", "whisper-large-v3"),
            pair("response_format", "json"),
            pair("temperature", "0"),
            pair("prompt", "Notes."),
        ]
    );
    let t = transcriber(vec![pair("prompt", "mine")], vec![], None, "Notes.");
    assert_eq!(
        t.form_fields(),
        vec![pair("model", "whisper-large-v3"), pair("response_format", "json"), pair("prompt", "mine")]
    );
    let t = transcriber(vec![], vec![], None, "   ");
    assert_eq!(
        t.form_fields(),
        vec![pair("model", "whisper-large-v3"), pair("response_format", "json")]
    );
}

#[test]
fn bearer_auth_unless_authorization_header() {
    assert!(transcriber(vec![], vec![pair("x-provider", "a")], Some("k"), "").uses_bearer_auth());
    assert!(!transcriber(vec![], vec![pair("AuThOrIzAtIoN", "Basic x")], Some("k"), "").uses_bearer_auth());
    assert!(!transcriber(vec![], vec![], None, "").uses_bearer_auth());
}

#[test]
fn request_failure_texts() {
    assert_eq!(request_failure_message("404 Not Found", Some("no model")), "no model");
    assert_eq!(
        request_failure_message("404 Not Found", None),
        "Custom transcription failed with status 404 Not Found"
    );
    assert_eq!(request_failure_context("500 Internal Server Error"), "Custom request failed (500 Internal Server Error)");
}

#[test]
fn retry_schedule() {
    assert_eq!(attempt_count(0), 1);
    assert_eq!(attempt_count(2), 3);
    assert_eq!(attempt_count(u32::MAX), u32::MAX);
    assert_eq!(after_failed_attempt(0, 3), RetryDecision::RetryAfterMs(500));
    assert_eq!(after_failed_attempt(1, 3), RetryDecision::RetryAfterMs(1000));
    assert_eq!(after_failed_attempt(2, 3), RetryDecision::GiveUp);
    assert_eq!(after_failed_attempt(10, 20), RetryDecision::RetryAfterMs(512000));
    assert_eq!(after_failed_attempt(55, 100), RetryDecision::RetryAfterMs(500 * (1u64 << 55)));
}

#[test]
fn base_paths_get_one_trailing_slash() {
    assert_eq!(path_with_trailing_slash("/v1"), Some("/v1/".to_string()));
    assert_eq!(path_with_trailing_slash("/v1/"), None);
    assert_eq!(path_with_trailing_slash("/"), None);
    assert_eq!(path_with_trailing_slash(""), Some("/".to_string()));
}
