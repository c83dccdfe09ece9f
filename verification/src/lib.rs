//! Core logic of a push-to-talk dictation tool.
//!
//! While a hotkey is held, the surrounding program captures microphone
//! audio, optionally ducks other applications' audio output, and on release
//! transcribes the captured audio and injects the resulting text into the
//! active window. This library holds the decision logic of that cycle:
//! the recording/transcription lifecycle controller, the audio-ducking
//! session selection and fade arithmetic, the hotkey descriptor parser,
//! and the configuration parsers. Platform services (audio devices, the
//! speech model, the system tray, global hotkeys, keystroke injection)
//! are driven by the surrounding program, which performs the actions this
//! library decides on and feeds their results back as events.

pub mod audio;
pub mod config;
pub mod controller;
pub mod feedback;
pub mod hotkey;
pub mod transcript;
pub mod tray;
pub mod volume;
