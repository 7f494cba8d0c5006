//! A small software synthesizer built on exact fixed-point arithmetic.
//!
//! Oscillators turn a phase into a sample, ADSR envelopes shape a note's
//! gain over time, instruments bind notes to voices, and the streaming
//! controller decides, tick after tick, how to keep a double-buffered
//! playback device fed.
//!
//! Every quantity is an integer: amplitudes, gains and phases are counted in
//! millionths of their unit, frequencies in millihertz, times in
//! milliseconds or in sample frames.

pub mod envelope;
pub mod hertz;
pub mod instrument;
pub mod note;
pub mod oscillator;
pub mod sample;
pub mod streaming;
pub mod time;
