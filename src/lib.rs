//! Voice dictation core: audio resampling and chunking, WAV framing,
//! transcription accumulation, voice-command detection and the pipeline
//! state machine, each with a machine-checked contract.

pub mod backends;
pub mod capture;
pub mod chunker;
pub mod commands;
pub mod config;
pub mod dictionary;
pub mod error;
pub mod history;
pub mod http_llm;
pub mod icon;
pub mod llm;
pub mod output;
pub mod permissions;
pub mod prompts;
pub mod providers;
pub mod resampler;
pub mod state;
pub mod stt;
pub mod text;
pub mod wav;
