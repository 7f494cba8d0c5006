use hush::instrument::{Instrument, NoteChannel, Synth, SynthADSR};
use hush::note::{Note, A4, C4};
use hush::oscillator::Waveform;
use hush::sample::UNIT;
use hush::time::SampleTime;

#[test]
fn note_channel_constructors() {
    assert_eq!(NoteChannel::new(3), NoteChannel(3));
    assert_eq!(NoteChannel::default(), NoteChannel(0));
}

#[test]
fn new_synth_is_silent() {
    for mut synth in [Synth::sine(), Synth::square(), Synth::triangle(), Synth::sawtooth()] {
        assert!(!synth.is_active());
        assert!(synth.get_samples(SampleTime(0), SampleTime(100)).is_empty());
    }
}

#[test]
fn note_on_then_off_silences_the_synth() {
    let mut synth = Synth::sine();
    let channel = synth.note_on(Note::from_millihertz(C4), SampleTime(0));
    assert!(synth.is_active());
    synth.note_off(channel);
    assert!(!synth.is_active());
    assert!(synth.get_samples(SampleTime(0), SampleTime(44100)).is_empty());
}

#[test]
fn note_off_on_another_channel_keeps_the_note() {
    let mut synth = Synth::square();
    let channel = synth.note_on(Note::from_millihertz(A4), SampleTime(0));
    assert_eq!(channel, NoteChannel(0));
    synth.note_off(NoteChannel::new(1));
    assert!(synth.is_active());
    assert_eq!(synth.get_samples(SampleTime(0), SampleTime(10)).len(), 10);
}

#[test]
fn synth_plays_the_pressed_note() {
    let mut synth = Synth::square();
    synth.note_on(Note::from_millihertz(11_025_000), SampleTime(0));
    let s = synth.get_samples(SampleTime(0), SampleTime(4)).to_vec();
    assert_eq!(s, vec![UNIT, UNIT, -UNIT, -UNIT]);
}

#[test]
fn second_note_replaces_the_first() {
    let mut synth = Synth::with_waveform(Waveform::Square);
    synth.note_on(Note::from_millihertz(1000), SampleTime(0));
    synth.note_on(Note::from_millihertz(11_025_000), SampleTime(10));
    let s = synth.get_samples(SampleTime(0), SampleTime(4)).to_vec();
    assert_eq!(s, vec![UNIT, UNIT, -UNIT, -UNIT]);
}

#[test]
fn synth_adsr_starts_inactive() {
    for synth in [SynthADSR::sine(), SynthADSR::square(), SynthADSR::triangle(), SynthADSR::sawtooth()] {
        assert!(!synth.is_active(SampleTime(0)));
        assert!(!synth.is_active(SampleTime(441_000)));
    }
}

#[test]
fn synth_adsr_shapes_the_signal() {
    let mut synth = SynthADSR::square();
    synth.note_on(Note::from_millihertz(11_025_000), SampleTime(0));
    // 100 ms in: halfway up the 200 ms attack; frame 4410 is half a period
    // into the wave.
    let s = synth.get_samples(SampleTime(4410), SampleTime(4414)).to_vec();
    assert_eq!(s, vec![-500_000, -500_000, 500_000, 500_000]);
    // 500 ms in: at the sustain level.
    let s = synth.get_samples(SampleTime(22052), SampleTime(22054)).to_vec();
    assert_eq!(s, vec![900_000, 900_000]);
    assert!(synth.is_active(SampleTime(22050)));
}

#[test]
fn synth_adsr_release_tail_then_silence() {
    let mut synth = SynthADSR::square();
    let channel = synth.note_on(Note::from_millihertz(11_025_000), SampleTime(0));
    // released at one second
    synth.note_off(channel, SampleTime(44100));
    // 1.5 s: halfway through the one-second release
    assert!(synth.is_active(SampleTime(66150)));
    let s = synth.get_samples(SampleTime(66150), SampleTime(66152)).to_vec();
    assert_eq!(s, vec![-450_000, -450_000]);
    // 2 s: silent
    assert!(!synth.is_active(SampleTime(88200)));
    let s = synth.get_samples(SampleTime(88200), SampleTime(88202)).to_vec();
    assert_eq!(s, vec![0, 0]);
}

#[test]
fn synth_adsr_without_a_note_gives_nothing() {
    let mut synth = SynthADSR::sine();
    assert!(synth.get_samples(SampleTime(0), SampleTime(10)).is_empty());
    synth.note_off(NoteChannel::default(), SampleTime(5));
    assert!(!synth.is_active(SampleTime(5)));
}
