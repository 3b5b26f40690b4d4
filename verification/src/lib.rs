//! Verified core of a speech-to-text dictation daemon: configuration model,
//! provider selection, credential sources, file discovery rules and the
//! command and request plans handed to the transcription back-ends.
pub mod text;
pub mod provider;
pub mod config;
pub mod equality;
pub mod defaults;
pub mod sources;
pub mod discovery;
pub mod custom_openai;
pub mod audio;
pub mod whisper;
pub mod wav;
