//! ADSR envelopes and related types.
//!
//! Gains are fixed-point: `UNIT` is a gain of `1`. Times are milliseconds.

use crate::sample::UNIT;
use crate::time::Time;
use vstd::prelude::*;

verus! {

/// The time that comes before every other, `-inf`: an envelope switched off
/// at `NEVER` was never switched on, and is silent at every time.
pub const NEVER: Time = i64::MIN;

/// State of an ADSR.
#[derive(Clone, Copy, Debug, PartialEq, Eq, Structural)]
pub enum ADSRState {
    /// The ADSR was switched on, at the time it holds.
    On(Time),
    /// The ADSR was switched off, at the time it holds.
    Off(Time),
}

/// What an ADSR envelope is: its four parameters and its state.
pub struct EnvelopeModel {
    pub attack: int,
    pub decay: int,
    pub sustain: int,
    pub release: int,
    pub state: ADSRState,
}

impl EnvelopeModel {
    /// The parameters an envelope accepts: attack and decay take time,
    /// sustain and release are not negative.
    pub open spec fn wf(&self) -> bool {
        &&& self.attack > 0
        &&& self.decay > 0
        &&& self.sustain >= 0
        &&& self.release >= 0
    }

    /// The gain of the envelope at time `t`.
    ///
    /// Switched on at `t0`, it rises linearly from `0` to `1` until
    /// `t0 + attack`, falls linearly to `sustain` until
    /// `t0 + attack + decay`, and stays there. Switched off at `t0`, it falls
    /// linearly from `sustain` to `0` until `t0 + release` and stays at `0`;
    /// switched off at `NEVER`, it is `0` throughout. Before the switch, the
    /// gain is where its ramp starts.
    pub open spec fn value(&self, t: int) -> int {
        match self.state {
            ADSRState::On(t0) => {
                let a = t0 + self.attack;
                let d = a + self.decay;
                if t <= t0 {
                    0
                } else if t <= a {
                    (UNIT * (t - t0)) / self.attack
                } else if t <= d {
                    (UNIT * (d - t) + self.sustain * (t - a)) / self.decay
                } else {
                    self.sustain
                }
            },
            ADSRState::Off(t0) => {
                if t0 == NEVER || t - t0 >= self.release {
                    0
                } else if t <= t0 {
                    self.sustain
                } else {
                    (self.sustain * (t0 + self.release - t)) / self.release
                }
            },
        }
    }
}

/// A normalized ADSR (Attack–Decay–Sustain–Release) envelope.
///
/// The smallest gain it gives is `0`; the largest is `1`, or the sustain
/// level where that is higher.
pub struct ADSR {
    attack: Time,
    decay: Time,
    sustain: i64,
    release: Time,
    state: ADSRState,
}

impl View for ADSR {
    type V = EnvelopeModel;

    closed spec fn view(&self) -> EnvelopeModel {
        EnvelopeModel {
            attack: self.attack as int,
            decay: self.decay as int,
            sustain: self.sustain as int,
            release: self.release as int,
            state: self.state,
        }
    }
}

impl ADSR {
    #[verifier::type_invariant]
    spec fn valid(&self) -> bool {
        self@.wf()
    }

    /// An envelope with the given durations, in milliseconds, and sustain
    /// level, in millionths. It starts switched off at `NEVER`, so it is
    /// silent at every time until switched on.
    ///
    /// Fails when `attack` or `decay` is not positive, or `sustain` or
    /// `release` is negative.
    pub fn new(attack: Time, decay: Time, sustain: i64, release: Time) -> (r: Option<ADSR>)
        ensures
            r.is_none() <==> (attack <= 0 || decay <= 0 || sustain < 0 || release < 0),
            r matches Some(e) ==> e@ == (EnvelopeModel {
                attack: attack as int,
                decay: decay as int,
                sustain: sustain as int,
                release: release as int,
                state: ADSRState::Off(NEVER),
            }),
            r matches Some(e) ==> forall|t: int| #[trigger] e@.value(t) == 0,
    {
        if attack <= 0 || decay <= 0 || sustain < 0 || release < 0 {
            return None;
        }
        Some(ADSR { attack, decay, sustain, release, state: ADSRState::Off(NEVER) })
    }

    /// Switch on.
    pub fn on(&mut self, t: Time)
        ensures
            final(self)@ == (EnvelopeModel { state: ADSRState::On(t), ..old(self)@ }),
    {
        proof {
            use_type_invariant(&*self);
        }
        self.state = ADSRState::On(t);
    }

    /// Switch off.
    pub fn off(&mut self, t: Time)
        ensures
            final(self)@ == (EnvelopeModel { state: ADSRState::Off(t), ..old(self)@ }),
    {
        proof {
            use_type_invariant(&*self);
        }
        self.state = ADSRState::Off(t);
    }

    /// Get the state of the envelope.
    pub fn state(&self) -> (r: ADSRState)
        ensures
            r == self@.state,
    {
        self.state
    }

    /// Get the gain at time `t`.
    pub fn get(&self, t: Time) -> (r: i64)
        ensures
            r == self@.value(t as int),
            0 <= r,
            r <= UNIT || r <= self@.sustain,
    {
        proof {
            use_type_invariant(self);
        }
        let t = t as i128;
        let unit = UNIT as i128;
        let sustain = self.sustain as i128;
        match self.state {
            ADSRState::On(t0) => {
                let t0 = t0 as i128;
                let attack = self.attack as i128;
                let decay = self.decay as i128;
                let a = t0 + attack;
                let d = a + decay;
                if t <= t0 {
                    0
                } else if t <= a {
                    let r = (unit * (t - t0)) / attack;
                    assert(r <= unit) by (nonlinear_arith)
                        requires
                            r as int == (unit * (t - t0)) / (attack as int),
                            0 < t - t0 <= attack,
                            unit > 0,
                    ;
                    r as i64
                } else if t <= d {
                    assert(sustain * (t - a) <= (i64::MAX as int) * (i64::MAX as int)) by (nonlinear_arith)
                        requires
                            0 <= sustain <= i64::MAX,
                            0 < t - a <= decay <= i64::MAX,
                    ;
                    assert(unit * (d - t) <= unit * (i64::MAX as int)) by (nonlinear_arith)
                        requires
                            0 <= d - t < decay <= i64::MAX,
                            unit > 0,
                    ;
                    let num = unit * (d - t) + sustain * (t - a);
                    let r = num / decay;
                    assert(r <= unit || r <= sustain) by (nonlinear_arith)
                        requires
                            r as int == (num as int) / (decay as int),
                            num == unit * (d - t) + sustain * (t - a),
                            d - a == decay,
                            a < t <= d,
                            unit > 0,
                            sustain >= 0,
                    ;
                    r as i64
                } else {
                    self.sustain
                }
            },
            ADSRState::Off(t0) => {
                let never = t0 == NEVER;
                let t0 = t0 as i128;
                let release = self.release as i128;
                if never || t - t0 >= release {
                    0
                } else if t <= t0 {
                    self.sustain
                } else {
                    assert(sustain * (t0 + release - t) <= (i64::MAX as int) * (i64::MAX as int)) by (nonlinear_arith)
                        requires
                            0 <= sustain <= i64::MAX,
                            0 < t0 + release - t < release <= i64::MAX,
                    ;
                    let r = (sustain * (t0 + release - t)) / release;
                    assert(r <= sustain) by (nonlinear_arith)
                        requires
                            r as int == (sustain * (t0 + release - t)) / (release as int),
                            0 < t0 + release - t < release,
                            sustain >= 0,
                    ;
                    r as i64
                }
            },
        }
    }
}

} // verus!
