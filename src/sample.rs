//! Signal samples.

use vstd::prelude::*;

verus! {

/// Full scale of a sample, and more generally the fixed-point unit of the
/// crate: a sample, a gain or a phase of `UNIT` stands for `1`.
pub const UNIT: i32 = 1_000_000;

/// A signal sample, in millionths of full scale.
///
/// The waveforms keep every sample within `[-UNIT, UNIT]`.
pub type Sample = i32;

} // verus!
