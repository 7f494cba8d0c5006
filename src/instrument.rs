//! Instruments.

use crate::envelope::{ADSRState, EnvelopeModel, ADSR, NEVER};
use crate::note::Note;
use crate::oscillator::{evaluate, frame_phase, phase_of, wave_of, wave_samples, Oscillator, Waveform};
use crate::sample::{Sample, UNIT};
use crate::time::{SampleTime, Time, SAMPLE_RATE};
use vstd::prelude::*;

verus! {

/// An instrument.
///
/// An instrument can play notes by pressing and releasing them. Notes can be
/// played independently from each other, allowing for a rich and mixed audio
/// signal. This is done through “note channels”.
pub trait Instrument {
    /// Whether the instrument is currently playing.
    spec fn sounding(&self) -> bool;

    /// Trigger a note at a given time; the result is the channel it plays on.
    fn note_on(&mut self, note: Note, time: SampleTime) -> (channel: NoteChannel)
        ensures
            final(self).sounding(),
    ;

    /// Release the note playing on a channel. Releasing never wakes a silent
    /// instrument.
    fn note_off(&mut self, note_channel: NoteChannel)
        ensures
            final(self).sounding() ==> old(self).sounding(),
    ;

    /// Is the instrument currently active / playing?
    fn is_active(&self) -> (r: bool)
        ensures
            r == self.sounding(),
    ;

    /// Get the samples of this instrument for the frames `[start, end)`.
    ///
    /// There is one sample per frame, or none at all when nothing plays.
    fn get_samples(&mut self, start: SampleTime, end: SampleTime) -> (samples: &[Sample])
        requires
            start.0 <= end.0,
        ensures
            samples@.len() == 0 || samples@.len() == end.0 - start.0,
    ;
}

/// A note channel.
///
/// When an instrument is asked to play a note, it does it on a “note
/// channel”, allowing for multiple notes to be played at the same time. The
/// number of available channels is instrument-specific.
#[derive(Clone, Copy, Debug, PartialEq, Eq, Structural)]
pub struct NoteChannel(pub usize);

impl NoteChannel {
    pub fn new(i: usize) -> (r: NoteChannel)
        ensures
            r == NoteChannel(i),
    {
        NoteChannel(i)
    }

    /// The first channel, the one every instrument has.
    pub fn default() -> (r: NoteChannel)
        ensures
            r == NoteChannel(0),
    {
        Self::new(0)
    }
}

/// A note pressed at a given time, on a channel.
#[derive(Clone, Copy, Debug, PartialEq, Eq, Structural)]
pub struct PressedNote {
    pub note: Note,
    pub channel: NoteChannel,
    pub time: SampleTime,
}

/// What a synth is: the note it holds, if any, and its waveform.
pub struct SynthView {
    pub pressed: Option<PressedNote>,
    pub wave: Waveform,
}

/// The synth `v` once `note` is pressed at `time`: it holds that note on the
/// first channel, in place of whatever it held.
pub open spec fn synth_note_on(v: SynthView, note: Note, time: SampleTime) -> SynthView {
    SynthView { pressed: Some(PressedNote { note, channel: NoteChannel(0), time }), ..v }
}

/// The synth `v` once `channel` is released: the note held on that channel
/// stops; a note held on another channel goes on.
pub open spec fn synth_note_off(v: SynthView, channel: NoteChannel) -> SynthView {
    match v.pressed {
        Some(p) => if p.channel == channel {
            SynthView { pressed: None, ..v }
        } else {
            v
        },
        None => v,
    }
}

/// The samples the synth `v` gives for the frames `[start, end)`: its
/// waveform at the frequency of the note it holds, or nothing when it holds
/// none.
pub open spec fn synth_samples(v: SynthView, start: int, end: int) -> Seq<int> {
    match v.pressed {
        Some(p) => wave_samples(v.wave, start, end, p.note.frequency.millihertz_spec() as int),
        None => Seq::empty(),
    }
}

/// A synth: a single-voice instrument playing one waveform.
///
/// It holds at most one note: pressing a note replaces the one held.
pub struct Synth {
    pressed: Option<PressedNote>,
    oscillator: Oscillator,
}

impl View for Synth {
    type V = SynthView;

    closed spec fn view(&self) -> SynthView {
        SynthView { pressed: self.pressed, wave: self.oscillator.waveform() }
    }
}

impl Synth {
    /// A silent synth of the given waveform.
    pub fn with_waveform(wave: Waveform) -> (r: Synth)
        ensures
            r@ == (SynthView { pressed: None, wave }),
    {
        Synth { pressed: None, oscillator: Oscillator::new(wave) }
    }

    pub fn sine() -> (r: Synth)
        ensures
            r@ == (SynthView { pressed: None, wave: Waveform::Sine }),
    {
        Self::with_waveform(Waveform::Sine)
    }

    pub fn square() -> (r: Synth)
        ensures
            r@ == (SynthView { pressed: None, wave: Waveform::Square }),
    {
        Self::with_waveform(Waveform::Square)
    }

    pub fn triangle() -> (r: Synth)
        ensures
            r@ == (SynthView { pressed: None, wave: Waveform::Triangle }),
    {
        Self::with_waveform(Waveform::Triangle)
    }

    pub fn sawtooth() -> (r: Synth)
        ensures
            r@ == (SynthView { pressed: None, wave: Waveform::Sawtooth }),
    {
        Self::with_waveform(Waveform::Sawtooth)
    }
}

impl Instrument for Synth {
    open spec fn sounding(&self) -> bool {
        self@.pressed is Some
    }

    fn note_on(&mut self, note: Note, time: SampleTime) -> (channel: NoteChannel)
        ensures
            final(self)@ == synth_note_on(old(self)@, note, time),
            channel == NoteChannel(0),
    {
        let channel = NoteChannel::default();
        self.pressed = Some(PressedNote { note, channel, time });
        channel
    }

    fn note_off(&mut self, note_channel: NoteChannel)
        ensures
            final(self)@ == synth_note_off(old(self)@, note_channel),
    {
        if let Some(p) = &self.pressed {
            if p.channel == note_channel {
                self.pressed = None;
            }
        }
    }

    fn is_active(&self) -> (r: bool) {
        self.pressed.is_some()
    }

    fn get_samples(&mut self, start: SampleTime, end: SampleTime) -> (samples: &[Sample])
        ensures
            final(self)@ == old(self)@,
            samples@.map_values(|s: Sample| s as int) == synth_samples(
                old(self)@,
                start.0 as int,
                end.0 as int,
            ),
    {
        match &self.pressed {
            None => {
                let empty: &[Sample] = &[];
                assert(empty@.map_values(|s: Sample| s as int) =~= Seq::empty());
                assert(empty@.len() == empty@.map_values(|s: Sample| s as int).len());
                empty
            },
            Some(p) => {
                let freq = p.note.frequency();
                let samples = self.oscillator.sample(start, end, freq);
                assert(samples@.len() == samples@.map_values(|s: Sample| s as int).len());
                samples
            },
        }
    }
}

/// Pressing a note on a synth and then releasing the channel that pressing
/// returned leaves the synth silent: it is not active, and gives no samples
/// for any range of frames.
pub proof fn lemma_note_on_then_off(v: SynthView, note: Note, time: SampleTime, start: int, end: int)
    ensures
        ({
            let on = synth_note_on(v, note, time);
            let off = synth_note_off(on, on.pressed->Some_0.channel);
            &&& off.pressed is None
            &&& synth_samples(off, start, end) == Seq::<int>::empty()
        }),
{
}

/// Attack of the envelope of a `SynthADSR`, in milliseconds.
pub const ENVELOPE_ATTACK: Time = 200;

/// Decay of the envelope of a `SynthADSR`, in milliseconds.
pub const ENVELOPE_DECAY: Time = 100;

/// Sustain level of the envelope of a `SynthADSR`, in millionths.
pub const ENVELOPE_SUSTAIN: i64 = 900_000;

/// Release of the envelope of a `SynthADSR`, in milliseconds.
pub const ENVELOPE_RELEASE: Time = 1000;

/// The time, in milliseconds, at which frame `frame` plays.
pub open spec fn millis_of(frame: int) -> int {
    (frame * 1000) / (SAMPLE_RATE as int)
}

/// Sample `s` at gain `g`, rounded towards zero.
pub open spec fn scaled(s: int, g: int) -> int {
    if s >= 0 {
        (s * g) / (UNIT as int)
    } else {
        -(((-s) * g) / (UNIT as int))
    }
}

/// What a synth with an envelope is: the synth and the envelope.
pub struct SynthADSRView {
    pub synth: SynthView,
    pub envelope: EnvelopeModel,
}

impl SynthADSRView {
    /// The envelope is one that `ADSR::new` accepts, and it never raises the
    /// gain above `1`.
    pub open spec fn wf(&self) -> bool {
        &&& self.envelope.wf()
        &&& self.envelope.sustain <= UNIT
    }
}

/// The samples of `v` for the frames `[start, end)`: those of its synth, each
/// at the gain its envelope has when the frame plays.
pub open spec fn adsr_samples(v: SynthADSRView, start: int, end: int) -> Seq<int> {
    let raw = synth_samples(v.synth, start, end);
    Seq::new(raw.len(), |j: int| scaled(raw[j], v.envelope.value(millis_of(start + j))))
}

/// Whether the synth `v` is audible at frame `frame`: its envelope is
/// switched on, or was switched off and has not yet fallen to zero.
pub open spec fn adsr_active(v: SynthADSRView, frame: int) -> bool {
    match v.envelope.state {
        ADSRState::On(_) => true,
        ADSRState::Off(_) => v.envelope.value(millis_of(frame)) > 0,
    }
}

/// A synth whose notes are shaped by an ADSR envelope. A released note keeps
/// sounding while its envelope falls to zero.
pub struct SynthADSR {
    synth: Synth,
    envelope: ADSR,
    buffer: Vec<Sample>,
}

impl View for SynthADSR {
    type V = SynthADSRView;

    closed spec fn view(&self) -> SynthADSRView {
        SynthADSRView { synth: self.synth@, envelope: self.envelope@ }
    }
}

/// The time at which a frame plays, in milliseconds.
fn frame_millis(frame: SampleTime) -> (r: Time)
    ensures
        r == millis_of(frame.0 as int),
        r >= 0,
{
    let ms: u128 = (frame.0 as u128) * 1000 / (SAMPLE_RATE as u128);
    ms as i64
}

impl SynthADSR {
    /// The synth `synth`, shaped by the envelope `ENVELOPE_ATTACK`,
    /// `ENVELOPE_DECAY`, `ENVELOPE_SUSTAIN`, `ENVELOPE_RELEASE`, not yet
    /// switched on.
    pub fn new(synth: Synth) -> (r: SynthADSR)
        ensures
            r@.wf(),
            r@.synth == synth@,
            r@.envelope == (EnvelopeModel {
                attack: ENVELOPE_ATTACK as int,
                decay: ENVELOPE_DECAY as int,
                sustain: ENVELOPE_SUSTAIN as int,
                release: ENVELOPE_RELEASE as int,
                state: ADSRState::Off(NEVER),
            }),
    {
        let envelope = ADSR::new(ENVELOPE_ATTACK, ENVELOPE_DECAY, ENVELOPE_SUSTAIN, ENVELOPE_RELEASE).unwrap();
        SynthADSR { synth, envelope, buffer: Vec::with_capacity(SAMPLE_RATE) }
    }

    pub fn sine() -> (r: SynthADSR)
        ensures
            r@.wf(),
            r@.synth == (SynthView { pressed: None, wave: Waveform::Sine }),
            r@.envelope.state == ADSRState::Off(NEVER),
    {
        Self::new(Synth::sine())
    }

    pub fn triangle() -> (r: SynthADSR)
        ensures
            r@.wf(),
            r@.synth == (SynthView { pressed: None, wave: Waveform::Triangle }),
            r@.envelope.state == ADSRState::Off(NEVER),
    {
        Self::new(Synth::triangle())
    }

    pub fn square() -> (r: SynthADSR)
        ensures
            r@.wf(),
            r@.synth == (SynthView { pressed: None, wave: Waveform::Square }),
            r@.envelope.state == ADSRState::Off(NEVER),
    {
        Self::new(Synth::square())
    }

    pub fn sawtooth() -> (r: SynthADSR)
        ensures
            r@.wf(),
            r@.synth == (SynthView { pressed: None, wave: Waveform::Sawtooth }),
            r@.envelope.state == ADSRState::Off(NEVER),
    {
        Self::new(Synth::sawtooth())
    }

    /// Press `note` at frame `time`: the synth holds it and the envelope is
    /// switched on when that frame plays.
    pub fn note_on(&mut self, note: Note, time: SampleTime) -> (channel: NoteChannel)
        ensures
            final(self)@ == (SynthADSRView {
                synth: synth_note_on(old(self)@.synth, note, time),
                envelope: EnvelopeModel {
                    state: ADSRState::On(millis_of(time.0 as int) as i64),
                    ..old(self)@.envelope
                },
            }),
            channel == NoteChannel(0),
    {
        let channel = self.synth.note_on(note, time);
        self.envelope.on(frame_millis(time));
        channel
    }

    /// Release `channel` at frame `time`: where the synth holds a note on that
    /// channel, its envelope is switched off when that frame plays, and the
    /// note fades out. Otherwise nothing changes.
    pub fn note_off(&mut self, channel: NoteChannel, time: SampleTime)
        ensures
            final(self)@ == (if old(self)@.synth.pressed is Some
                && old(self)@.synth.pressed->Some_0.channel == channel {
                SynthADSRView {
                    envelope: EnvelopeModel {
                        state: ADSRState::Off(millis_of(time.0 as int) as i64),
                        ..old(self)@.envelope
                    },
                    ..old(self)@
                }
            } else {
                old(self)@
            }),
    {
        let holds = match &self.synth.pressed {
            Some(p) => p.channel == channel,
            None => false,
        };
        if holds {
            self.envelope.off(frame_millis(time));
        }
    }

    /// Is the synth audible at frame `time`?
    pub fn is_active(&self, time: SampleTime) -> (r: bool)
        ensures
            r == adsr_active(self@, time.0 as int),
    {
        match self.envelope.state() {
            ADSRState::On(_) => true,
            ADSRState::Off(_) => self.envelope.get(frame_millis(time)) > 0,
        }
    }

    /// Get the samples for the frames `[start, end)`, shaped by the envelope.
    pub fn get_samples(&mut self, start: SampleTime, end: SampleTime) -> (samples: &[Sample])
        requires
            old(self)@.wf(),
            start.0 <= end.0,
        ensures
            final(self)@ == old(self)@,
            samples@.map_values(|s: Sample| s as int) == adsr_samples(
                old(self)@,
                start.0 as int,
                end.0 as int,
            ),
    {
        self.buffer.clear();
        if let Some(p) = self.synth.pressed {
            let wave = self.synth.oscillator.wave();
            let freq = p.note.frequency();
            let mut i: usize = start.0;
            while i < end.0
                invariant
                    start.0 <= i <= end.0,
                    self.synth == old(self).synth,
                    self.envelope == old(self).envelope,
                    old(self)@.wf(),
                    wave == old(self)@.synth.wave,
                    freq == p.note.frequency,
                    self.buffer@.len() == i - start.0,
                    forall|k: int|
                        0 <= k < i - start.0 ==> #[trigger] self.buffer@[k] as int == scaled(
                            wave_of(wave, phase_of(start.0 + k, freq.millihertz_spec() as int)),
                            self.envelope@.value(millis_of(start.0 + k)),
                        ),
                decreases end.0 - i,
            {
                let s = evaluate(wave, frame_phase(i, freq));
                let g = self.envelope.get(frame_millis(SampleTime(i)));
                self.buffer.push(scale(s, g));
                i = i + 1;
            }
        }
        assert(self.buffer@.map_values(|s: Sample| s as int) =~= adsr_samples(
            old(self)@,
            start.0 as int,
            end.0 as int,
        ));
        self.buffer.as_slice()
    }
}

/// Sample `s` at gain `g`.
fn scale(s: Sample, g: i64) -> (r: Sample)
    requires
        -UNIT <= s <= UNIT,
        0 <= g <= UNIT,
    ensures
        r == scaled(s as int, g as int),
        -UNIT <= r <= UNIT,
{
    let m: i64 = if s >= 0 {
        s as i64
    } else {
        -(s as i64)
    };
    assert(0 <= m * g <= UNIT * UNIT) by (nonlinear_arith)
        requires
            0 <= m <= UNIT,
            0 <= g <= UNIT,
    ;
    let q = m * g / (UNIT as i64);
    assert(q <= UNIT) by (nonlinear_arith)
        requires
            q == m * g / (UNIT as int),
            0 <= m * g <= UNIT * UNIT,
    ;
    if s >= 0 {
        q as i32
    } else {
        -(q as i32)
    }
}

} // verus!
