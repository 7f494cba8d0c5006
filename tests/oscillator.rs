use hush::hertz::Hertz;
use hush::oscillator::{
    evaluate, sawtooth_wave, sine_wave, square_wave, triangle_wave, Oscillator, Waveform, HALF,
    PERIOD, QUARTER,
};
use hush::sample::UNIT;
use hush::time::SampleTime;

#[test]
fn sine_wave_remarkable_values() {
    assert_eq!(sine_wave(0), 0);
    assert_eq!(sine_wave(500_000), 0);
    assert_eq!(sine_wave(250_000), UNIT);
    assert_eq!(sine_wave(750_000), -UNIT);
}

#[test]
fn square_wave_remarkable_values() {
    assert_eq!(square_wave(0), UNIT);
    assert_eq!(square_wave(600_000), -UNIT);
    assert_eq!(square_wave(900_000), -UNIT);
}

#[test]
fn sine_wave_repeats_every_period() {
    for t in [0u64, 1, 123_456, 250_000, 499_999, 750_000, 999_999] {
        for k in [1u64, 2, 7, 1000] {
            assert_eq!(sine_wave(t + k * PERIOD), sine_wave(t));
        }
    }
}

#[test]
fn sine_wave_is_close_to_sine() {
    for step in 0..100u64 {
        let t = step * 10_000;
        let exact = (2.0 * std::f64::consts::PI * (t as f64) / (PERIOD as f64)).sin();
        let got = sine_wave(t) as f64 / UNIT as f64;
        assert!((got - exact).abs() < 0.002, "t = {}", t);
    }
}

#[test]
fn sine_wave_is_odd_across_half_periods() {
    for t in [1u64, 50_000, 125_000, 333_333] {
        assert_eq!(sine_wave(t + HALF), -sine_wave(t));
    }
}

#[test]
fn square_wave_flips_once_per_half_period() {
    assert_eq!(square_wave(HALF - 1), UNIT);
    assert_eq!(square_wave(HALF), -UNIT);
    assert_eq!(square_wave(PERIOD - 1), -UNIT);
    assert_eq!(square_wave(PERIOD), UNIT);
    assert_eq!(square_wave(3 * PERIOD + 100), UNIT);
    assert_eq!(square_wave(3 * PERIOD + HALF + 100), -UNIT);
}

#[test]
fn triangle_wave_values() {
    assert_eq!(triangle_wave(0), 0);
    assert_eq!(triangle_wave(QUARTER), UNIT);
    assert_eq!(triangle_wave(HALF), 0);
    assert_eq!(triangle_wave(3 * QUARTER), -UNIT);
    assert_eq!(triangle_wave(125_000), 500_000);
    assert_eq!(triangle_wave(875_000), -500_000);
    assert_eq!(triangle_wave(PERIOD + QUARTER), UNIT);
}

#[test]
fn sawtooth_wave_values() {
    assert_eq!(sawtooth_wave(0), UNIT);
    assert_eq!(sawtooth_wave(QUARTER), 500_000);
    assert_eq!(sawtooth_wave(HALF), 0);
    assert_eq!(sawtooth_wave(PERIOD - 1), -UNIT + 2);
    assert_eq!(sawtooth_wave(2 * PERIOD + HALF), 0);
}

#[test]
fn evaluate_dispatches_on_the_waveform() {
    assert_eq!(evaluate(Waveform::Sine, QUARTER), UNIT);
    assert_eq!(evaluate(Waveform::Square, 3 * QUARTER), -UNIT);
    assert_eq!(evaluate(Waveform::Triangle, 125_000), 500_000);
    assert_eq!(evaluate(Waveform::Sawtooth, HALF), 0);
}

#[test]
fn oscillator_samples_one_value_per_frame() {
    // 11025 Hz is a quarter of the sample rate: four frames per period.
    let mut osc = Oscillator::new(Waveform::Square);
    let freq = Hertz::from_millihertz(11_025_000);
    let s = osc.sample(SampleTime(0), SampleTime(8), freq).to_vec();
    assert_eq!(s, vec![UNIT, UNIT, -UNIT, -UNIT, UNIT, UNIT, -UNIT, -UNIT]);

    let mut osc = Oscillator::new(Waveform::Sine);
    let s = osc.sample(SampleTime(5), SampleTime(9), freq).to_vec();
    assert_eq!(s, vec![UNIT, 0, -UNIT, 0]);
}

#[test]
fn oscillator_empty_range_gives_nothing() {
    let mut osc = Oscillator::new(Waveform::Sawtooth);
    let freq = Hertz::from_millihertz(440_000);
    assert!(osc.sample(SampleTime(100), SampleTime(100), freq).is_empty());
}

#[test]
fn oscillator_reuses_its_buffer_between_calls() {
    let mut osc = Oscillator::new(Waveform::Sawtooth);
    let freq = Hertz::from_millihertz(11_025_000);
    assert_eq!(osc.sample(SampleTime(0), SampleTime(4), freq).len(), 4);
    let s = osc.sample(SampleTime(1), SampleTime(3), freq).to_vec();
    assert_eq!(s, vec![500_000, 0]);
}

#[test]
fn oscillator_one_second_at_one_hertz() {
    let mut osc = Oscillator::new(Waveform::Sine);
    let freq = Hertz::from_millihertz(1000);
    let s = osc.sample(SampleTime(0), SampleTime(44100), freq).to_vec();
    assert_eq!(s.len(), 44100);
    assert_eq!(s[0], 0);
    assert_eq!(s[11025], UNIT);
    assert_eq!(s[22050], 0);
    assert_eq!(s[33075], -UNIT);
    assert!(s.iter().all(|&x| -UNIT <= x && x <= UNIT));
}

#[test]
fn square_wave_flips_half_a_period_later() {
    for t in [0u64, 1, 249_999, 499_999, 500_000, 777_777, 999_999, 5_000_123] {
        assert_eq!(square_wave(t + HALF), -square_wave(t));
        assert_eq!(square_wave(t + PERIOD), square_wave(t));
    }
}
