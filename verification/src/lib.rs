//! Playback bookkeeping and output-device decisions for a small roguelike
//! game's background music.
//!
//! The library keeps the pure part of the audio layer: a nanosecond-exact
//! model of time spans, the state of a background track (when it started,
//! how long it has been paused, whether it has run out of samples), and the
//! decisions taken when the audio output device changes. Audio devices,
//! decoders and sinks stay with the program that drives the library.

pub mod time_span;
pub mod track;
pub mod output;
pub mod clock;
pub mod tick;
