use hyprwhspr_rs::provider::TranscriptionProvider;

#[test]
fn provider_labels() {
    assert_eq!(TranscriptionProvider::WhisperCpp.label(), "Local");
    assert_eq!(TranscriptionProvider::Groq.label(), "Groq");
    assert_eq!(TranscriptionProvider::Gemini.label(), "Gemini");
    assert_eq!(TranscriptionProvider::Parakeet.label(), "Parakeet TDT");
    assert_eq!(
        TranscriptionProvider::Custom("remote_whisper".to_string()).label(),
        "Custom (remote_whisper)"
    );
    assert_eq!(TranscriptionProvider::default(), TranscriptionProvider::WhisperCpp);
}

#[test]
fn provider_config_strings() {
    assert_eq!(TranscriptionProvider::WhisperCpp.to_config_string(), "whisper_cpp");
    assert_eq!(TranscriptionProvider::Groq.to_config_string(), "groq");
    assert_eq!(TranscriptionProvider::Gemini.to_config_string(), "gemini");
    assert_eq!(TranscriptionProvider::Parakeet.to_config_string(), "parakeet");
    assert_eq!(
        TranscriptionProvider::Custom("remote_whisper".to_string()).to_config_string(),
        "custom.remote_whisper"
    );
}

#[test]
fn provider_parses_config_strings() {
    assert_eq!(
        TranscriptionProvider::from_config_str("custom.remote_whisper"),
        Ok(TranscriptionProvider::Custom("remote_whisper".to_string()))
    );
    assert_eq!(
        TranscriptionProvider::from_config_str("groq"),
        Ok(TranscriptionProvider::Groq)
    );
    assert_eq!(
        TranscriptionProvider::from_config_str("custom. spaced "),
        Ok(TranscriptionProvider::Custom(" spaced ".to_string()))
    );
    let err = TranscriptionProvider::from_config_str("custom.  ").unwrap_err();
    assert_eq!(err.message(), "unknown transcription provider 'custom.  '");
    let err = TranscriptionProvider::from_config_str("Groq").unwrap_err();
    assert_eq!(err.message(), "unknown transcription provider 'Groq'");
    assert!(TranscriptionProvider::from_config_str("").is_err());
}

#[test]
fn provider_round_trips_through_config_string() {
    for p in [
        TranscriptionProvider::WhisperCpp,
        TranscriptionProvider::Groq,
        TranscriptionProvider::Gemini,
        TranscriptionProvider::Parakeet,
        TranscriptionProvider::Custom("remote_whisper".to_string()),
        TranscriptionProvider::Custom("groq".to_string()),
    ] {
        let text = p.to_config_string();
        assert_eq!(TranscriptionProvider::from_config_str(&text), Ok(p));
    }
}
