//! Notes and the pitches of the fourth octave.
//!
//! Each constant is the frequency of a note of twelve-tone equal
//! temperament, in millihertz, rounded to the nearest integer
//! (`A4` is 440 Hz).

use crate::hertz::Hertz;
use vstd::prelude::*;

verus! {

pub const C4: u32 = 261_626;
pub const DB4: u32 = 277_183;
pub const D4: u32 = 293_665;
pub const EB4: u32 = 311_127;
pub const E4: u32 = 329_628;
pub const F4: u32 = 349_228;
pub const GB4: u32 = 369_994;
pub const G4: u32 = 391_995;
pub const AB4: u32 = 415_305;
pub const A4: u32 = 440_000;
pub const BB4: u32 = 466_164;
pub const B4: u32 = 493_883;

/// A named pitch.
#[derive(Clone, Copy, Debug, PartialEq, Eq, Structural)]
pub struct Note {
    pub frequency: Hertz,
}

impl Note {
    /// The note whose frequency is `millihertz` thousandths of a hertz.
    pub fn from_millihertz(millihertz: u32) -> (r: Note)
        requires
            millihertz > 0,
        ensures
            r.frequency.millihertz_spec() == millihertz,
    {
        Note { frequency: Hertz::from_millihertz(millihertz) }
    }

    /// The frequency of the note.
    pub fn frequency(&self) -> (r: Hertz)
        ensures
            r == self.frequency,
    {
        self.frequency
    }
}

} // verus!
