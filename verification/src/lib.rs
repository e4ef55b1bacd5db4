//! Prayer-time notification core: the day's schedule of timed events, the
//! monitor that decides when an event is due, and the playback trigger that
//! picks an output device and an audio cue for it.

pub mod config;
pub mod error;
pub mod kinds;
pub mod monitor;
pub mod outside;
pub mod playback;
pub mod schedule;
pub mod text;
