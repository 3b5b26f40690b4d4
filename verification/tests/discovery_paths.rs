use hyprwhspr_rs::config::VadConfig;
use hyprwhspr_rs::discovery::{
    assets_dir_candidates, discover_assets_dir, discover_whisper_binary_candidates, expand_tilde,
    model_file_candidates, model_path_candidates, model_search_dir_candidates, model_search_dirs,
    resolve_model_path, resolve_vad_model_path, vad_model_candidates, whisper_binary_candidates,
    same_path_text, path_parts_of, path_start_kind, ModelPathError,
};

fn strings(v: &[&str]) -> Vec<String> {
    v.iter().map(|s| s.to_string()).collect()
}

#[test]
fn resolve_model_path_prefers_existing_dir() {
    let dirs = strings(&["/tmp/hyprwhspr-test/empty", "/tmp/hyprwhspr-test/populated"]);
    let candidates = model_path_candidates(&dirs, "base");
    assert_eq!(
        candidates,
        strings(&[
            "/tmp/hyprwhspr-test/empty/ggml-base.en.bin",
            "/tmp/hyprwhspr-test/empty/ggml-base.bin",
            "/tmp/hyprwhspr-test/populated/ggml-base.en.bin",
            "/tmp/hyprwhspr-test/populated/ggml-base.bin",
        ])
    );
    let existing = [false, false, false, true];
    let resolved = resolve_model_path("base", &dirs, &existing).expect("model path");
    assert_eq!(resolved, "/tmp/hyprwhspr-test/populated/ggml-base.bin");
}

#[test]
fn model_path_errors() {
    assert_eq!(resolve_model_path("base", &vec![], &[]), Err(ModelPathError::NoSearchDirs));
    assert_eq!(
        ModelPathError::NoSearchDirs.message(),
        "No models found. Please download to ~/.local/share/hyprwhspr-rs/models:\nhttps://huggingface.co/ggerganov/whisper.cpp/tree/main"
    );
    let err = resolve_model_path("tiny", &strings(&["/a", "/b/"]), &[false; 4]).unwrap_err();
    assert_eq!(err.message(), "Whisper model 'tiny' not found in: /a, /b/");
}

#[test]
fn english_models_have_one_candidate() {
    assert_eq!(model_file_candidates("base.en"), strings(&["ggml-base.en.bin"]));
    assert_eq!(
        model_file_candidates("large-v3-turbo"),
        strings(&["ggml-large-v3-turbo.en.bin", "ggml-large-v3-turbo.bin"])
    );
}

#[test]
fn tilde_expansion() {
    assert_eq!(expand_tilde("~", Some("/home/u")), "/home/u");
    assert_eq!(expand_tilde("~/models", Some("/home/u")), "/home/u/models");
    assert_eq!(expand_tilde("~/models", None), "~/models");
    assert_eq!(expand_tilde("/opt/~/x", Some("/home/u")), "/opt/~/x");
}

#[test]
fn model_search_dirs_keep_existing_configured_then_fixed() {
    let configured = strings(&[" ~/models ", "", "/data/m", "~/models"]);
    let candidates = model_search_dir_candidates(&configured, Some("/home/u"));
    assert_eq!(
        candidates,
        strings(&[
            "/home/u/models",
            "/data/m",
            "/home/u/models",
            "/usr/share/whisper/models",
            "/home/u/.local/share/hyprwhspr-rs/whisper.cpp/models",
        ])
    );
    let dirs = model_search_dirs(&configured, Some("/home/u"), &[true, false, true, true, false]);
    assert_eq!(dirs, strings(&["/home/u/models", "/usr/share/whisper/models"]));
}

#[test]
fn whisper_binary_candidates_include_path_binaries() {
    let path_dirs = strings(&["/tmp/hyprwhspr-path-test"]);
    let candidates = whisper_binary_candidates(None, None, &path_dirs, false);
    assert_eq!(candidates, strings(&["/tmp/hyprwhspr-path-test/whisper-cli"]));
    let found = discover_whisper_binary_candidates(None, None, &path_dirs, false, &[true]);
    assert!(found.contains(&"/tmp/hyprwhspr-path-test/whisper-cli".to_string()));
}

#[test]
fn whisper_binary_candidates_include_xdg_managed_build() {
    let data_dir = "/tmp/hyprwhspr-xdg-data-test/hyprwhspr-rs";
    let candidates = whisper_binary_candidates(Some(data_dir), None, &vec![], false);
    assert_eq!(
        candidates,
        strings(&[
            "/tmp/hyprwhspr-xdg-data-test/hyprwhspr-rs/whisper.cpp/build/bin/whisper-cli",
            "/tmp/hyprwhspr-xdg-data-test/hyprwhspr-rs/whisper.cpp/whisper-cli",
        ])
    );
    let found = discover_whisper_binary_candidates(Some(data_dir), None, &vec![], false, &[true, false]);
    assert!(found.contains(
        &"/tmp/hyprwhspr-xdg-data-test/hyprwhspr-rs/whisper.cpp/build/bin/whisper-cli".to_string()
    ));
}

#[test]
fn whisper_binary_candidates_with_fallbacks_are_deduplicated() {
    let path_dirs = strings(&["/usr/bin", "/usr/bin"]);
    let candidates = whisper_binary_candidates(None, Some("/home/u"), &path_dirs, true);
    assert_eq!(candidates.len(), 6 + 2 + 4);
    assert_eq!(candidates[0], "/home/u/.local/share/hyprwhspr-rs/whisper.cpp/build/bin/whisper-cli");
    assert_eq!(candidates[5], "/home/u/.local/share/hyprwhspr-rs/whisper.cpp/whisper");
    assert_eq!(candidates[6], "/usr/bin/whisper-cli");
    assert_eq!(candidates[8], "/usr/bin/whisper");
    assert_eq!(candidates[9], "/usr/bin/main");
    let existing = vec![true; candidates.len()];
    let found = discover_whisper_binary_candidates(None, Some("/home/u"), &path_dirs, true, &existing);
    assert_eq!(found.len(), 6 + 1 + 2);
}

#[test]
fn assets_dir_can_be_overridden_by_env() {
    let root = "/tmp/hyprwhspr-assets-test";
    let candidates = assets_dir_candidates(Some(root), Some("/usr"), None);
    assert_eq!(
        candidates,
        strings(&[
            root,
            "/usr/share/hyprwhspr-rs/assets",
            "/usr/share/assets",
            "/usr/lib/hyprwhspr-rs/share/assets",
            "assets",
        ])
    );
    let is_dir = [true, true, false, false, false];
    assert_eq!(discover_assets_dir(Some(root), Some("/usr"), None, &is_dir), root);
}

#[test]
fn assets_dir_falls_back_to_relative_assets() {
    assert_eq!(discover_assets_dir(None, None, Some("/src"), &[false, false]), "assets");
    assert_eq!(discover_assets_dir(None, None, Some("/src"), &[true, false]), "/src/assets");
}

#[test]
fn vad_model_search_order() {
    let mut vad = VadConfig::default();
    let dirs = strings(&["/m"]);
    assert!(vad_model_candidates(&vad, Some("/cfg"), Some("/xdg"), &dirs).is_empty());
    vad.enabled = true;
    vad.model = " silero.bin ".to_string();
    assert_eq!(
        vad_model_candidates(&vad, Some("/cfg"), Some("/xdg"), &dirs),
        strings(&["silero.bin", "/cfg/silero.bin", "/xdg/silero.bin", "/m/silero.bin"])
    );
    assert_eq!(
        resolve_vad_model_path(&vad, Some("/cfg"), Some("/xdg"), &dirs, &[false, false, true, true]),
        Some("/xdg/silero.bin".to_string())
    );
    assert_eq!(resolve_vad_model_path(&vad, None, None, &dirs, &[false, false]), None);
}

#[test]
fn paths_compare_by_components() {
    assert!(same_path_text("/usr/bin", "/usr/bin/"));
    assert!(same_path_text("/usr//bin", "/usr/./bin"));
    assert!(same_path_text("./a", ".//a/"));
    assert!(!same_path_text("./a", "a"));
    assert!(!same_path_text("/a", "a"));
    assert!(!same_path_text("/a/../b", "/b"));
    assert_eq!(path_parts_of("/usr//./bin/"), strings(&["usr", "bin"]));
    assert_eq!(path_start_kind("/x"), 0);
    assert_eq!(path_start_kind("."), 1);
    assert_eq!(path_start_kind(".hidden"), 2);
}

#[test]
fn trailing_separator_does_not_repeat_a_search_dir() {
    let configured = strings(&["/data/m", "/data/m/", "/data//m"]);
    let dirs = model_search_dirs(&configured, None, &[true, true, true, false]);
    assert_eq!(dirs, strings(&["/data/m"]));
    let path_dirs = strings(&["/usr/bin", "/usr/bin/"]);
    let found = discover_whisper_binary_candidates(None, None, &path_dirs, false, &[true, true]);
    assert_eq!(found, strings(&["/usr/bin/whisper-cli"]));
}

#[test]
fn discovery_without_fallbacks_keeps_the_whisper_cli_binaries() {
    let path_dirs = strings(&["/usr/bin", "/opt/w/bin", "/usr/bin/"]);
    let exists = |p: &str| p != "/opt/w/bin/whisper-cli" && !p.starts_with("/home");
    let with = whisper_binary_candidates(Some("/data"), Some("/home/u"), &path_dirs, true);
    let without = whisper_binary_candidates(Some("/data"), Some("/home/u"), &path_dirs, false);
    let flags_with: Vec<bool> = with.iter().map(|p| exists(p)).collect();
    let flags_without: Vec<bool> = without.iter().map(|p| exists(p)).collect();
    let found_with = discover_whisper_binary_candidates(
        Some("/data"),
        Some("/home/u"),
        &path_dirs,
        true,
        &flags_with,
    );
    let found_without = discover_whisper_binary_candidates(
        Some("/data"),
        Some("/home/u"),
        &path_dirs,
        false,
        &flags_without,
    );
    let filtered: Vec<String> = found_with
        .iter()
        .filter(|p| path_parts_of(p).last().map(|s| s.as_str()) == Some("whisper-cli"))
        .cloned()
        .collect();
    assert_eq!(found_without, filtered);
    assert_eq!(
        found_without,
        strings(&[
            "/data/whisper.cpp/build/bin/whisper-cli",
            "/data/whisper.cpp/whisper-cli",
            "/usr/bin/whisper-cli",
        ])
    );
    assert_eq!(found_with.len(), 3 + 4 + 2 + 2);
}
