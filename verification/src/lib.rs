//! Core logic of an audio-ducking daemon: while a designated "trigger" media
//! player (a browser) is playing, the volume of a designated "target" player
//! (a music service) is smoothly lowered, and restored once the trigger stops.
//!
//! This crate holds the verified core: the volume-transition planner, the
//! step-pacing arithmetic, the playback-state handling with its fail-safe
//! default, and the ducking state machine. Everything that talks to the
//! player control surface or to the command line lives outside, hands the
//! core plain values, and carries out the actions the core decides on.

pub mod config;
pub mod directory;
pub mod errors;
pub mod monitor;
pub mod playback;
pub mod transition;
