//! Playback engine for a terminal music player.
//!
//! The engine is a passive state machine: the caller owns the threads, the
//! clock and the audio device, and reports what happened; every transition
//! is specified over a mathematical model of the session.

pub mod catalog;
pub mod clock;
pub mod display;
pub mod keymap;
pub mod navigation;
pub mod paths;
pub mod playback;
pub mod producer;
pub mod queue;
pub mod session;
pub mod text;
pub mod timecode;
pub mod volume;
