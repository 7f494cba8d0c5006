//! Frequencies.

use vstd::prelude::*;

verus! {

/// A frequency, held in millihertz. It is always positive.
#[derive(Clone, Copy, Debug, PartialEq, Eq, Structural)]
pub struct Hertz {
    millis: u32,
}

impl Hertz {
    /// The frequency in millihertz.
    pub closed spec fn millihertz_spec(&self) -> nat {
        self.millis as nat
    }

    /// A frequency of `millihertz` thousandths of a hertz.
    pub fn from_millihertz(millihertz: u32) -> (r: Hertz)
        requires
            millihertz > 0,
        ensures
            r.millihertz_spec() == millihertz,
    {
        Hertz { millis: millihertz }
    }

    /// The frequency in millihertz.
    pub fn millihertz(&self) -> (r: u32)
        ensures
            r == self.millihertz_spec(),
            r > 0,
    {
        proof {
            use_type_invariant(self);
        }
        self.millis
    }

    #[verifier::type_invariant]
    spec fn positive(&self) -> bool {
        self.millis > 0
    }
}

} // verus!
