use hyprwhspr_rs::config::{SecretSource, ValueSource};
use hyprwhspr_rs::sources::SourceError;

#[test]
fn value_source_prefers_non_empty_env_over_config_value() {
    let source = ValueSource {
        env: Some("HYPRWHSPR_TEST_BASE_URL_PREFERS_ENV".to_string()),
        value: Some("http://localhost:8080".to_string()),
    };
    assert_eq!(
        source.env_name().as_deref(),
        Some("HYPRWHSPR_TEST_BASE_URL_PREFERS_ENV")
    );

    assert_eq!(
        source
            .resolve("base_url", Some("http://remote:8080"))
            .expect("resolved base_url"),
        "http://remote:8080"
    );
}

#[test]
fn value_source_uses_config_value_when_env_is_unset() {
    let source = ValueSource {
        env: Some("HYPRWHSPR_TEST_BASE_URL_USES_VALUE".to_string()),
        value: Some("http://localhost:8080".to_string()),
    };

    assert_eq!(
        source.resolve("base_url", None).expect("resolved base_url"),
        "http://localhost:8080"
    );
}

#[test]
fn secret_source_prefers_file_env_then_file_then_env() {
    let file_env_path = "/tmp/hyprwhspr-rs-secret-source/file-env-secret";
    let file_path = "/tmp/hyprwhspr-rs-secret-source/file-secret";

    let source = SecretSource {
        env: Some("HYPRWHSPR_TEST_API_KEY".to_string()),
        file: Some(file_path.to_string()),
        file_env: Some("HYPRWHSPR_TEST_API_KEY_FILE".to_string()),
    };

    // Both variables set: the file named by the file variable is read.
    assert_eq!(
        source.secret_file_path(Some(file_env_path)).as_deref(),
        Some(file_env_path)
    );
    assert_eq!(
        source
            .resolve("api_key", Some(file_env_path), Some("from-env"), Some("from-file-env\n"))
            .expect("resolved api_key"),
        Some("from-file-env".to_string())
    );

    // File variable unset: the configured file is read.
    assert_eq!(source.secret_file_path(None).as_deref(), Some(file_path));
    assert_eq!(
        source
            .resolve("api_key", None, Some("from-env"), Some("from-file\n"))
            .expect("resolved api_key"),
        Some("from-file".to_string())
    );

    let env_only_source = SecretSource {
        env: Some("HYPRWHSPR_TEST_API_KEY".to_string()),
        file: None,
        file_env: None,
    };
    assert_eq!(env_only_source.secret_file_path(None), None);
    assert_eq!(
        env_only_source
            .resolve("api_key", None, Some("from-env"), None)
            .expect("resolved api_key"),
        Some("from-env".to_string())
    );
}

#[test]
fn value_source_blank_env_falls_back_and_trims() {
    let source = ValueSource {
        env: Some("  VAR  ".to_string()),
        value: Some("  http://localhost:8080 \n".to_string()),
    };
    assert_eq!(source.env_name().as_deref(), Some("VAR"));
    assert_eq!(
        source.resolve("base_url", Some("   ")).unwrap(),
        "http://localhost:8080"
    );
    assert_eq!(
        source.resolve("base_url", Some(" http://remote ")).unwrap(),
        "http://remote"
    );
}

#[test]
fn value_source_without_any_value_is_required() {
    let source = ValueSource {
        env: Some(" ".to_string()),
        value: Some("\t".to_string()),
    };
    assert_eq!(source.env_name(), None);
    let err = source.resolve("base_url", Some("ignored")).unwrap_err();
    assert_eq!(
        err,
        SourceError::Required {
            field: "base_url".to_string()
        }
    );
    assert_eq!(err.message(), "base_url is required");
}

#[test]
fn secret_source_without_sources_is_no_secret() {
    let source = SecretSource::default();
    assert_eq!(source.resolve("api_key", None, None, None), Ok(None));
    let env_blank = SecretSource {
        env: Some("KEY".to_string()),
        file: None,
        file_env: None,
    };
    assert_eq!(env_blank.resolve("api_key", None, Some("  "), None), Ok(None));
}

#[test]
fn secret_file_errors() {
    let source = SecretSource {
        env: None,
        file: Some(" /run/secrets/key ".to_string()),
        file_env: None,
    };
    let unreadable = source.resolve("api_key", None, None, None).unwrap_err();
    assert_eq!(
        unreadable.message(),
        "Failed to read api_key secret file: /run/secrets/key"
    );
    let empty = source.resolve("api_key", None, None, Some(" \n ")).unwrap_err();
    assert_eq!(
        empty,
        SourceError::SecretFileEmpty {
            field: "api_key".to_string(),
            path: "/run/secrets/key".to_string()
        }
    );
    assert_eq!(empty.message(), "api_key secret file is empty: /run/secrets/key");
}
