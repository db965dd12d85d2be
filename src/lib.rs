//! Streaming voice-activity segmentation for push-to-talk dictation, with
//! the transcript post-processing and settings of the dictation host.

pub mod error;
pub mod manager;
pub mod pcm;
pub mod phrase_pattern;
pub mod session;
pub mod settings;
pub mod smoothing;
pub mod streaming;
pub mod transcript;
pub mod transcription;
pub mod voice_commands;
pub mod windows_focus;
