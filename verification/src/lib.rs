//! Verified core of a voice-driven conversational assistant.
//!
//! The library covers the turn-taking audio pipeline: canonicalization of
//! hardware-native PCM samples, a finalize-once sample sink that emits a
//! complete WAV container, the decision that gates the start of a capture,
//! the conversation turn state machine with its append-only history, and
//! the pure path and configuration computations around them. Everything
//! that touches hardware, the filesystem, the network, subprocesses, or a
//! terminal lives outside the library and hands it plain values.

pub mod audio;
pub mod cli;
pub mod config;
pub mod conversation;
pub mod error;
pub mod sample;
pub mod search_path;
pub mod sink;
pub mod transcriber;
pub mod voice;
