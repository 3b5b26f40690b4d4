use hyprwhspr_rs::audio::{content_type, encoder_failure_message, ffmpeg_args, needs_encoding};
use hyprwhspr_rs::config::FloatBits;
use hyprwhspr_rs::custom_openai::AudioFormat;
use hyprwhspr_rs::wav::wav_bytes;
use hyprwhspr_rs::whisper::{
    all_binaries_failed, binary_step, interpret_whisper_output, next_binary, BinaryStep,
    NumberTexts, WhisperError,
    WhisperManager, WhisperVadOptions,
};

fn manager(vad: WhisperVadOptions, gpu_layers: i32) -> WhisperManager {
    WhisperManager::new(
        "/models/ggml-base.bin".to_string(),
        vec!["/bin/whisper-cli".to_string(), "/bin/main".to_string()],
        4,
        "Notes.".to_string(),
        "/tmp/hw".to_string(),
        gpu_layers,
        vad,
        FloatBits(0.6f32.to_bits()),
    )
    .unwrap()
}

fn texts() -> NumberTexts {
    NumberTexts {
        no_speech_threshold: "0.6".to_string(),
        vad_threshold: "0.5".to_string(),
        vad_max_speech_s: "15".to_string(),
        vad_samples_overlap: "0.1".to_string(),
    }
}

fn strings(v: &[&str]) -> Vec<String> {
    v.iter().map(|s| s.to_string()).collect()
}

#[test]
fn whisper_manager_needs_a_binary() {
    let err = WhisperManager::new(
        "/m".to_string(),
        vec![],
        1,
        String::new(),
        "/tmp".to_string(),
        0,
        WhisperVadOptions::disabled(),
        FloatBits(0),
    )
    .unwrap_err();
    assert_eq!(err, WhisperError::NoBinaries);
    assert_eq!(
        err.message(),
        "No whisper binaries found. Install whisper.cpp or provide a valid binary path."
    );
}

#[test]
fn whisper_args_without_vad() {
    let m = manager(WhisperVadOptions::disabled(), 999);
    assert_eq!(
        m.whisper_args("/tmp/hw/audio_7.wav", &texts()),
        strings(&[
            "-m", "/models/ggml-base.bin", "-f", "/tmp/hw/audio_7.wav", "--output-txt",
            "--language", "auto", "--threads", "4", "--prompt", "Notes.", "--no-timestamps",
            "--no-speech-thold", "0.6",
        ])
    );
}

#[test]
fn whisper_args_with_vad_and_cpu_only() {
    let mut vad = WhisperVadOptions::disabled();
    vad.enabled = true;
    vad.model_path = Some("/m/silero.bin".to_string());
    let m = manager(vad.clone(), 0);
    let args = m.whisper_args("/a.wav", &texts());
    assert_eq!(
        args[14..].to_vec(),
        strings(&[
            "--vad", "--vad-model", "/m/silero.bin", "--vad-threshold", "0.5",
            "--vad-min-speech-duration-ms", "250", "--vad-min-silence-duration-ms", "100",
            "--vad-speech-pad-ms", "30", "--vad-samples-overlap", "0.1", "--no-gpu",
        ])
    );
    vad.max_speech_s = FloatBits(15.0f32.to_bits());
    let m = manager(vad, 1);
    let args = m.whisper_args("/a.wav", &texts());
    assert!(args.windows(2).any(|w| w[0] == "--vad-max-speech-duration-s" && w[1] == "15"));
    assert!(!args.contains(&"--no-gpu".to_string()));
}

#[test]
fn vad_inactive_without_model() {
    let mut vad = WhisperVadOptions::disabled();
    vad.enabled = true;
    assert!(!vad.is_active());
    let m = manager(vad, 999);
    assert_eq!(m.whisper_args("/a.wav", &texts()).len(), 14);
}

#[test]
fn whisper_initialize_picks_first_existing_binary() {
    let m = manager(WhisperVadOptions::disabled(), 999);
    assert_eq!(m.initialize(true, "\"/m\"", &[false, true]), Ok(1));
    let err = m.initialize(true, "\"/m\"", &[false, false]).unwrap_err();
    assert_eq!(
        err.message(),
        "None of the configured whisper binaries were found. Tried: /bin/whisper-cli, /bin/main"
    );
    let err = m.initialize(false, "\"/models/ggml-base.bin\"", &[true, true]).unwrap_err();
    assert_eq!(
        err.message(),
        "Whisper model not found at: \"/models/ggml-base.bin\"\nDownload models from: https://huggingface.co/ggerganov/whisper.cpp/tree/main"
    );
}

#[test]
fn whisper_output_interpretation() {
    assert_eq!(
        interpret_whisper_output("\"/bin/w\"", true, Some(0), "", Some("  hello world \n"), "ignored"),
        Ok("hello world".to_string())
    );
    assert_eq!(
        interpret_whisper_output("\"/bin/w\"", true, Some(0), "", None, "\n from stdout "),
        Ok("from stdout".to_string())
    );
    let err = interpret_whisper_output("\"/bin/w\"", false, Some(-3), " boom \n", None, "").unwrap_err();
    assert_eq!(err.message(), "Whisper failed (exit code -3) using \"/bin/w\": boom");
    let err = interpret_whisper_output("\"/bin/w\"", false, None, "", None, "").unwrap_err();
    assert_eq!(err.message(), "Whisper failed (terminated by signal) using \"/bin/w\": ");
}

#[test]
fn whisper_binary_fallback_order() {
    assert_eq!(next_binary(3, &[false, true, true], 0), Some(1));
    assert_eq!(next_binary(3, &[false, true, true], 2), Some(2));
    assert_eq!(next_binary(3, &[false, true, true], 3), None);
    assert_eq!(next_binary(2, &[], 0), None);
    assert_eq!(
        all_binaries_failed(&vec![]).message(),
        "All whisper binaries failed. Tried: <none>"
    );
}

#[test]
fn whisper_temp_paths() {
    let m = manager(WhisperVadOptions::disabled(), 999);
    assert_eq!(m.temp_wav_path(1234), "/tmp/hw/audio_1234.wav");
    assert_eq!(m.transcript_path(0), "/tmp/hw/audio_0.txt");
}

#[test]
fn wav_file_layout() {
    let bytes = wav_bytes(&[0, 1, -1, i16::MIN, i16::MAX]);
    assert_eq!(bytes.len(), 44 + 10);
    assert_eq!(&bytes[0..4], b"RIFF");
    assert_eq!(u32::from_le_bytes(bytes[4..8].try_into().unwrap()), 36 + 10);
    assert_eq!(&bytes[8..16], b"WAVEfmt ");
    assert_eq!(u32::from_le_bytes(bytes[16..20].try_into().unwrap()), 16);
    assert_eq!(u16::from_le_bytes(bytes[20..22].try_into().unwrap()), 1);
    assert_eq!(u16::from_le_bytes(bytes[22..24].try_into().unwrap()), 1);
    assert_eq!(u32::from_le_bytes(bytes[24..28].try_into().unwrap()), 16000);
    assert_eq!(u32::from_le_bytes(bytes[28..32].try_into().unwrap()), 32000);
    assert_eq!(u16::from_le_bytes(bytes[32..34].try_into().unwrap()), 2);
    assert_eq!(u16::from_le_bytes(bytes[34..36].try_into().unwrap()), 16);
    assert_eq!(&bytes[36..40], b"data");
    assert_eq!(u32::from_le_bytes(bytes[40..44].try_into().unwrap()), 10);
    assert_eq!(&bytes[44..], &[0, 0, 1, 0, 0xff, 0xff, 0x00, 0x80, 0xff, 0x7f]);
    assert_eq!(wav_bytes(&[]).len(), 44);
}

#[test]
fn ffmpeg_command_lines() {
    assert_eq!(
        ffmpeg_args(AudioFormat::Flac),
        strings(&[
            "-hide_banner", "-loglevel", "error", "-f", "f32le", "-ar", "16000", "-ac", "1", "-i",
            "pipe:0", "-compression_level", "12", "-f", "flac", "pipe:1",
        ])
    );
    assert_eq!(
        ffmpeg_args(AudioFormat::Wav),
        strings(&[
            "-hide_banner", "-loglevel", "error", "-f", "f32le", "-ar", "16000", "-ac", "1", "-i",
            "pipe:0", "-f", "wav", "pipe:1",
        ])
    );
    assert_eq!(content_type(AudioFormat::Flac), "audio/flac");
    assert_eq!(content_type(AudioFormat::Wav), "audio/wav");
    assert_eq!(
        encoder_failure_message(Some(1), "bad input"),
        "ffmpeg exited with status Some(1): bad input"
    );
    assert_eq!(encoder_failure_message(None, ""), "ffmpeg exited with status None: ");
}

#[test]
fn whisper_binary_loop_steps() {
    let exists = [false, true, false, true];
    assert_eq!(binary_step(4, &exists, None, false), BinaryStep::Run(1));
    assert_eq!(binary_step(4, &exists, Some(1), true), BinaryStep::UseTranscript);
    assert_eq!(binary_step(4, &exists, Some(1), false), BinaryStep::Run(3));
    assert_eq!(binary_step(4, &exists, Some(3), false), BinaryStep::ReportLastFailure);
    assert_eq!(binary_step(4, &exists, Some(3), true), BinaryStep::UseTranscript);
    assert_eq!(binary_step(2, &[false, false], None, false), BinaryStep::ReportAllFailed);
    assert_eq!(binary_step(0, &[], None, false), BinaryStep::ReportAllFailed);
}

#[test]
fn empty_recordings_are_not_encoded() {
    assert!(!needs_encoding(0));
    assert!(needs_encoding(1));
    assert!(needs_encoding(16000));
}
