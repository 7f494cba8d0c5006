//! Time, both continuous and discretized.

use vstd::prelude::*;

verus! {

/// Number of sample frames in one second of audio.
pub const SAMPLE_RATE: usize = 44100;

/// Regular time, in milliseconds.
pub type Time = i64;

/// Sample time.
///
/// A sample time is a discretized time used to sample an oscillator: the
/// index of a frame on the audio timeline, at `SAMPLE_RATE` frames per
/// second. A number of frames is a difference of two sample times.
#[derive(Clone, Copy, Debug, PartialEq, Eq, Structural)]
pub struct SampleTime(pub usize);

} // verus!
