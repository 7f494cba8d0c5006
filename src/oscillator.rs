//! Basic oscillators.
//!
//! A waveform is normalized: one full period spans the phases `[0, 1)`, here
//! `[0, PERIOD)` in millionths of a period, and every sample lies in
//! `[-UNIT, UNIT]`. Phase and amplitude share the same fixed-point unit, so
//! `PERIOD == UNIT`.

use crate::hertz::Hertz;
use crate::sample::{Sample, UNIT};
use crate::time::{SampleTime, SAMPLE_RATE};
use vstd::arithmetic::div_mod::{lemma_mod_multiples_vanish, lemma_mod_twice};
use vstd::prelude::*;

verus! {

/// A phase, in millionths of a period. Only its position within a period
/// matters: every waveform has period `PERIOD`.
pub type Phase = u64;

/// One full period.
pub const PERIOD: u64 = 1_000_000;

/// Half a period.
pub const HALF: u64 = 500_000;

/// A quarter of a period.
pub const QUARTER: u64 = 250_000;

/// Bhaskara I's rational approximation of `sin(pi * p / HALF)`, in
/// millionths, for `p` in `[0, HALF]`. It is exact at `0`, `QUARTER` and
/// `HALF` and off by less than 0.2% of full scale elsewhere.
pub open spec fn half_sine(p: int) -> int {
    let u = p * (HALF - p);
    (16 * UNIT * u) / (5 * HALF * HALF - 4 * u)
}

/// The sine wave, `sin(2 pi t)`: `half_sine` on the first half of each
/// period, its negation on the second.
pub open spec fn sine_of(t: int) -> int {
    let p = t % (PERIOD as int);
    if p < HALF {
        half_sine(p)
    } else {
        -half_sine(p - HALF)
    }
}

/// The square wave: `1` on the first half of each period, `-1` on the second.
pub open spec fn square_of(t: int) -> int {
    if t % (PERIOD as int) < HALF {
        UNIT as int
    } else {
        -UNIT
    }
}

/// The triangle wave: a tent that rises from `0` to `1` on the first quarter
/// of the period, falls to `-1` at three quarters and rises back to `0`.
pub open spec fn triangle_of(t: int) -> int {
    let p = t % (PERIOD as int);
    if p <= QUARTER {
        4 * p
    } else if p <= 3 * QUARTER {
        2 * UNIT - 4 * p
    } else {
        4 * p - 4 * UNIT
    }
}

/// The sawtooth wave: a ramp from `1` down towards `-1` across each period.
pub open spec fn sawtooth_of(t: int) -> int {
    UNIT - 2 * (t % (PERIOD as int))
}

/// One half period of the sine wave, exactly `half_sine`.
fn half_sine_value(p: u64) -> (r: u64)
    requires
        p <= HALF,
    ensures
        r == half_sine(p as int),
        r <= UNIT,
{
    assert(4 * (p * (HALF - p)) <= HALF * HALF) by (nonlinear_arith)
        requires
            p <= HALF,
    ;
    let u: u64 = p * (HALF - p);
    let num: u64 = 16 * (UNIT as u64) * u;
    let den: u64 = 5 * HALF * HALF - 4 * u;
    assert(num / den <= UNIT) by (nonlinear_arith)
        requires
            num == 16 * UNIT * u,
            den == 5 * HALF * HALF - 4 * u,
            4 * u <= HALF * HALF,
    ;
    num / den
}

/// The core sine wave (normalized).
pub fn sine_wave(t: Phase) -> (r: Sample)
    ensures
        r == sine_of(t as int),
        -UNIT <= r <= UNIT,
{
    let p = t % PERIOD;
    if p < HALF {
        half_sine_value(p) as i32
    } else {
        -(half_sine_value(p - HALF) as i32)
    }
}

/// The square wave (normalized).
pub fn square_wave(t: Phase) -> (r: Sample)
    ensures
        r == square_of(t as int),
        r == UNIT || r == -UNIT,
{
    if t % PERIOD < HALF {
        UNIT
    } else {
        -UNIT
    }
}

/// The triangle wave (normalized).
pub fn triangle_wave(t: Phase) -> (r: Sample)
    ensures
        r == triangle_of(t as int),
        -UNIT <= r <= UNIT,
{
    let p = (t % PERIOD) as i32;
    if p <= QUARTER as i32 {
        4 * p
    } else if p <= 3 * QUARTER as i32 {
        2 * UNIT - 4 * p
    } else {
        4 * p - 4 * UNIT
    }
}

/// The sawtooth wave (normalized).
pub fn sawtooth_wave(t: Phase) -> (r: Sample)
    ensures
        r == sawtooth_of(t as int),
        -UNIT < r <= UNIT,
{
    UNIT - 2 * ((t % PERIOD) as i32)
}

/// The four waveform kinds an oscillator can produce.
#[derive(Clone, Copy, Debug, PartialEq, Eq, Structural)]
pub enum Waveform {
    Sine,
    Square,
    Triangle,
    Sawtooth,
}

/// The sample of waveform `wave` at phase `t`.
pub open spec fn wave_of(wave: Waveform, t: int) -> int {
    match wave {
        Waveform::Sine => sine_of(t),
        Waveform::Square => square_of(t),
        Waveform::Triangle => triangle_of(t),
        Waveform::Sawtooth => sawtooth_of(t),
    }
}

/// The phase, in millionths of a period, at which frame `i` samples a wave
/// of `millihertz` thousandths of a hertz: `i * freq / SAMPLE_RATE` periods.
pub open spec fn phase_of(i: int, millihertz: int) -> int {
    (i * millihertz * PERIOD) / (SAMPLE_RATE * 1000)
}

/// The samples of `wave` at frequency `millihertz` for the frames
/// `[start, end)`, one per frame.
pub open spec fn wave_samples(wave: Waveform, start: int, end: int, millihertz: int) -> Seq<int> {
    Seq::new((end - start) as nat, |j: int| wave_of(wave, phase_of(start + j, millihertz)))
}

/// Evaluate `wave` at phase `t`.
pub fn evaluate(wave: Waveform, t: Phase) -> (r: Sample)
    ensures
        r == wave_of(wave, t as int),
        -UNIT <= r <= UNIT,
{
    match wave {
        Waveform::Sine => sine_wave(t),
        Waveform::Square => square_wave(t),
        Waveform::Triangle => triangle_wave(t),
        Waveform::Sawtooth => sawtooth_wave(t),
    }
}

/// The phase of frame `i` for frequency `freq`, reduced to one period.
pub(crate) fn frame_phase(i: usize, freq: Hertz) -> (r: Phase)
    ensures
        forall|w: Waveform| wave_of(w, r as int) == wave_of(w, phase_of(i as int, freq.millihertz_spec() as int)),
{
    let f = freq.millihertz();
    assert(i * f <= u128::MAX) by (nonlinear_arith)
        requires
            i <= usize::MAX,
            f <= u32::MAX,
    ;
    let x: u128 = (i as u128) * (f as u128);
    assert(x * (PERIOD as u128) <= u128::MAX) by (nonlinear_arith)
        requires
            x == i * f,
            i <= usize::MAX,
            f <= u32::MAX,
    ;
    let phase: u128 = x * (PERIOD as u128) / ((SAMPLE_RATE as u128) * 1000);
    let r = (phase % (PERIOD as u128)) as u64;
    proof {
        lemma_mod_twice(phase as int, PERIOD as int);
    }
    r
}

/// Oscillator.
///
/// It samples one waveform into a buffer that it reuses from one call to
/// the next, sized at construction for one second of audio.
pub struct Oscillator {
    sampling_buffer: Vec<Sample>,
    wave: Waveform,
}

impl Oscillator {
    /// The waveform this oscillator produces.
    pub closed spec fn waveform(&self) -> Waveform {
        self.wave
    }

    /// The waveform this oscillator produces.
    pub fn wave(&self) -> (r: Waveform)
        ensures
            r == self.waveform(),
    {
        self.wave
    }

    pub fn new(wave: Waveform) -> (r: Oscillator)
        ensures
            r.waveform() == wave,
    {
        Oscillator { sampling_buffer: Vec::with_capacity(SAMPLE_RATE), wave }
    }

    /// Sample from sample `start` to `end` with the given frequency: one
    /// sample per frame of `[start, end)`.
    pub fn sample(&mut self, start: SampleTime, end: SampleTime, freq: Hertz) -> (r: &[Sample])
        requires
            start.0 <= end.0,
        ensures
            final(self).waveform() == old(self).waveform(),
            r@.map_values(|s: Sample| s as int) == wave_samples(
                old(self).waveform(),
                start.0 as int,
                end.0 as int,
                freq.millihertz_spec() as int,
            ),
    {
        let s = start.0;
        let e = end.0;
        self.sampling_buffer.clear();
        let mut i: usize = s;
        while i < e
            invariant
                s <= i <= e,
                self.wave == old(self).wave,
                self.sampling_buffer@.len() == i - s,
                forall|j: int|
                    0 <= j < i - s ==> #[trigger] self.sampling_buffer@[j] as int == wave_of(
                        self.wave,
                        phase_of(s + j, freq.millihertz_spec() as int),
                    ),
            decreases e - i,
        {
            let signal = evaluate(self.wave, frame_phase(i, freq));
            self.sampling_buffer.push(signal);
            i = i + 1;
        }
        assert(self.sampling_buffer@.map_values(|x: Sample| x as int) =~= wave_samples(
            self.wave,
            s as int,
            e as int,
            freq.millihertz_spec() as int,
        ));
        self.sampling_buffer.as_slice()
    }
}

/// Every waveform repeats itself after each whole number of periods:
/// `wave(t + k) == wave(t)` for every integer `k`.
pub proof fn lemma_wave_periodic(wave: Waveform, t: int, k: int)
    ensures
        wave_of(wave, t + k * PERIOD) == wave_of(wave, t),
{
    lemma_mod_multiples_vanish(k, t, PERIOD as int);
    assert(t + k * PERIOD == PERIOD * k + t) by (nonlinear_arith);
}

/// The square wave is always `1` or `-1`, flips sign half a period later,
/// and is back to its value one period later, at every phase.
pub proof fn lemma_square_flips(t: int)
    ensures
        square_of(t) == UNIT || square_of(t) == -UNIT,
        square_of(t + HALF) == -square_of(t),
        square_of(t + PERIOD) == square_of(t),
{
    let p = t % (PERIOD as int);
    lemma_wave_periodic(Waveform::Square, t, 1);
    if p < HALF {
        assert((t + HALF) % (PERIOD as int) == p + HALF);
    } else {
        assert((t + HALF) % (PERIOD as int) == p - HALF);
    }
}

/// Within every period, the square wave is `1` on the first half and `-1` on
/// the second: it changes sign once in the middle of the period and once at
/// its end.
pub proof fn lemma_square_halves(k: int, s: int)
    requires
        0 <= s < PERIOD,
    ensures
        square_of(k * PERIOD + s) == (if s < HALF {
            UNIT as int
        } else {
            -UNIT
        }),
{
    lemma_mod_multiples_vanish(k, s, PERIOD as int);
    assert(k * PERIOD + s == PERIOD * k + s) by (nonlinear_arith);
}

} // verus!
