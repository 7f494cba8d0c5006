//! The decisions that keep a playback device fed with an instrument's
//! signal.
//!
//! The device plays buffers from a queue. The streamer owns a fixed pool of
//! `POOL_SIZE` buffers, named `0` to `POOL_SIZE - 1`: each is at every moment
//! either idle, in the pool, or queued on the device. It also keeps the
//! cursor `processed`, the first frame not yet generated.
//!
//! A tick runs in this order. Every buffer that the device has finished is
//! handed back and reported with `reclaim`. Then `refresh`, given whether the
//! device plays and whether the instrument is active, says what to do: fill
//! a buffer with the next `READAHEAD` frames and queue it (then report it
//! with `filled`), stop the device and take back its buffers (then report
//! each with `reclaim`, and the stop with `stopped`), or nothing. Work on the
//! device that fails is not reported, and is tried again on the next tick.

use crate::time::SampleTime;
use vstd::prelude::*;

verus! {

/// Number of buffers the streamer owns.
pub const POOL_SIZE: usize = 2;

/// Number of frames generated at a time: one second ahead.
pub const READAHEAD: usize = 44100;

/// What the device should do on this tick.
#[derive(Clone, Copy, Debug, PartialEq, Eq, Structural)]
pub enum Step {
    /// Nothing.
    Wait,
    /// Stop playing and hand back every queued buffer.
    Stop,
    /// Generate the frames `[start, end)` into `buffer`, queue it, and start
    /// playing if `play` is set.
    Fill { buffer: usize, start: SampleTime, end: SampleTime, play: bool },
}

/// What a streamer is: its idle pool, the buffers queued on the device in
/// the order they play, and the first frame not yet generated.
pub struct StreamerModel {
    pub idle: Seq<usize>,
    pub queued: Seq<usize>,
    pub processed: nat,
}

impl StreamerModel {
    /// Every buffer of the pool is in exactly one of the idle pool and the
    /// device queue, and nowhere twice.
    pub open spec fn wf(&self) -> bool {
        &&& self.idle.len() + self.queued.len() == POOL_SIZE
        &&& self.idle.no_duplicates()
        &&& self.queued.no_duplicates()
        &&& forall|i: int, j: int|
            0 <= i < self.idle.len() && 0 <= j < self.queued.len() ==> #[trigger] self.idle[i]
                != #[trigger] self.queued[j]
        &&& forall|i: int| 0 <= i < self.idle.len() ==> #[trigger] self.idle[i] < POOL_SIZE
        &&& forall|j: int| 0 <= j < self.queued.len() ==> #[trigger] self.queued[j] < POOL_SIZE
        &&& self.processed <= usize::MAX
    }

    /// A buffer can be filled: one is idle and the cursor has room to
    /// advance.
    pub open spec fn can_fill(&self) -> bool {
        self.idle.len() > 0 && self.processed + READAHEAD <= usize::MAX
    }

    /// The buffer the next fill uses.
    pub open spec fn next_buffer(&self) -> usize {
        self.idle.last()
    }

    /// The step for a tick on which the device does or does not play and the
    /// instrument is or is not active.
    pub open spec fn step(&self, playing: bool, active: bool) -> Step {
        if playing && !active {
            Step::Stop
        } else if active && self.can_fill() {
            Step::Fill {
                buffer: self.next_buffer(),
                start: SampleTime(self.processed as usize),
                end: SampleTime((self.processed + READAHEAD) as usize),
                play: !playing,
            }
        } else {
            Step::Wait
        }
    }

    /// The streamer once the device handed back its oldest queued buffer.
    pub open spec fn reclaimed(&self) -> StreamerModel {
        if self.queued.len() > 0 {
            StreamerModel {
                idle: self.idle.push(self.queued[0]),
                queued: self.queued.drop_first(),
                processed: self.processed,
            }
        } else {
            *self
        }
    }

    /// The streamer once the device handed back `n` buffers.
    pub open spec fn reclaimed_n(&self, n: nat) -> StreamerModel
        decreases n,
    {
        if n == 0 {
            *self
        } else {
            self.reclaimed().reclaimed_n((n - 1) as nat)
        }
    }

    /// The streamer once the next buffer was filled and queued.
    pub open spec fn filled(&self) -> StreamerModel {
        if self.can_fill() {
            StreamerModel {
                idle: self.idle.drop_last(),
                queued: self.queued.push(self.next_buffer()),
                processed: (self.processed + READAHEAD) as nat,
            }
        } else {
            *self
        }
    }

    /// The streamer once the device stopped: the cursor is back at the start.
    pub open spec fn stopped(&self) -> StreamerModel {
        StreamerModel { processed: 0, ..*self }
    }
}

/// Handle audio streaming: the state that tells, tick after tick, how to
/// stream an instrument's activity to a playback device.
pub struct Streamer {
    idle: Vec<usize>,
    queued: Vec<usize>,
    processed: usize,
}

impl View for Streamer {
    type V = StreamerModel;

    closed spec fn view(&self) -> StreamerModel {
        StreamerModel { idle: self.idle@, queued: self.queued@, processed: self.processed as nat }
    }
}

impl Streamer {
    /// A streamer with every buffer idle and nothing generated.
    pub fn new() -> (r: Streamer)
        ensures
            r@ == (StreamerModel { idle: seq![0usize, 1usize], queued: Seq::empty(), processed: 0 }),
            r@.wf(),
    {
        let mut idle: Vec<usize> = Vec::with_capacity(POOL_SIZE);
        idle.push(0);
        idle.push(1);
        let r = Streamer { idle, queued: Vec::with_capacity(POOL_SIZE), processed: 0 };
        assert(r@.idle =~= seq![0usize, 1usize]);
        assert(r@.idle + r@.queued =~= seq![0usize, 1usize]);
        r
    }

    /// Decide what to do on this tick, once the finished buffers were
    /// reclaimed.
    ///
    /// Playing with an active instrument: fill the next buffer, if one is
    /// idle. Playing with an inactive instrument: stop. Stopped with an
    /// active instrument: fill a buffer and start playing. Stopped with an
    /// inactive instrument: nothing.
    pub fn refresh(&self, playing: bool, active: bool) -> (r: Step)
        ensures
            r == self@.step(playing, active),
    {
        if playing && !active {
            Step::Stop
        } else if active && !self.idle.is_empty() && self.processed <= usize::MAX - READAHEAD {
            let buffer = self.idle[self.idle.len() - 1];
            let start = self.processed;
            Step::Fill {
                buffer,
                start: SampleTime(start),
                end: SampleTime(start + READAHEAD),
                play: !playing,
            }
        } else {
            Step::Wait
        }
    }

    /// The device handed back its oldest queued buffer; the result names it,
    /// or is `None` where nothing was queued.
    pub fn reclaim(&mut self) -> (r: Option<usize>)
        requires
            old(self)@.wf(),
        ensures
            final(self)@ == old(self)@.reclaimed(),
            final(self)@.wf(),
            r == (if old(self)@.queued.len() > 0 {
                Some(old(self)@.queued[0])
            } else {
                None
            }),
    {
        if self.queued.is_empty() {
            return None;
        }
        let buffer = self.queued.remove(0);
        self.idle.push(buffer);
        proof {
            lemma_reclaimed_wf(old(self)@);
            assert(self@.queued =~= old(self)@.reclaimed().queued);
            assert(self@.idle =~= old(self)@.reclaimed().idle);
        }
        Some(buffer)
    }

    /// The buffer named by the last `Fill` was filled and queued: it leaves
    /// the pool for the device, and the cursor advances by `READAHEAD`.
    pub fn filled(&mut self)
        requires
            old(self)@.wf(),
        ensures
            final(self)@ == old(self)@.filled(),
            final(self)@.wf(),
    {
        if self.idle.is_empty() || self.processed > usize::MAX - READAHEAD {
            return;
        }
        let buffer = self.idle.pop().unwrap();
        self.queued.push(buffer);
        self.processed = self.processed + READAHEAD;
        proof {
            lemma_filled_wf(old(self)@);
            assert(self@.queued =~= old(self)@.filled().queued);
            assert(self@.idle =~= old(self)@.filled().idle);
        }
    }

    /// The device was stopped: generation starts over from the first frame.
    pub fn stopped(&mut self)
        requires
            old(self)@.wf(),
        ensures
            final(self)@ == old(self)@.stopped(),
            final(self)@.wf(),
    {
        self.processed = 0;
    }

    /// The idle buffers.
    pub fn idle(&self) -> (r: &[usize])
        ensures
            r@ == self@.idle,
    {
        self.idle.as_slice()
    }

    /// The buffers queued on the device, oldest first.
    pub fn queued(&self) -> (r: &[usize])
        ensures
            r@ == self@.queued,
    {
        self.queued.as_slice()
    }

    /// The first frame not yet generated.
    pub fn processed(&self) -> (r: usize)
        ensures
            r == self@.processed,
    {
        self.processed
    }
}

/// Handing back a buffer keeps a streamer well formed.
proof fn lemma_reclaimed_wf(m: StreamerModel)
    requires
        m.wf(),
    ensures
        m.reclaimed().wf(),
{
    if m.queued.len() > 0 {
        let n = m.reclaimed();
        assert(n.queued =~= m.queued.drop_first());
        assert(n.idle =~= m.idle.push(m.queued[0]));
        assert forall|i: int, j: int|
            0 <= i < n.idle.len() && 0 <= j < n.queued.len() implies #[trigger] n.idle[i]
                != #[trigger] n.queued[j] by {
            if i < m.idle.len() {
                assert(m.idle[i] != m.queued[j + 1]);
            } else {
                assert(m.queued[0] != m.queued[j + 1]);
            }
        }
        assert forall|i: int, j: int|
            0 <= i < n.idle.len() && 0 <= j < n.idle.len() && i != j implies n.idle[i]
                != n.idle[j] by {
            if i < m.idle.len() && j < m.idle.len() {
            } else if i < m.idle.len() {
                assert(m.idle[i] != m.queued[0]);
            } else {
                assert(m.idle[j] != m.queued[0]);
            }
        }
        assert forall|i: int, j: int|
            0 <= i < n.queued.len() && 0 <= j < n.queued.len() && i != j implies n.queued[i]
                != n.queued[j] by {
            assert(m.queued[i + 1] != m.queued[j + 1]);
        }
    }
}

/// Filling a buffer keeps a streamer well formed.
proof fn lemma_filled_wf(m: StreamerModel)
    requires
        m.wf(),
    ensures
        m.filled().wf(),
{
    if m.can_fill() {
        let n = m.filled();
        let b = m.next_buffer();
        assert(n.idle =~= m.idle.drop_last());
        assert(n.queued =~= m.queued.push(b));
        assert forall|i: int, j: int|
            0 <= i < n.idle.len() && 0 <= j < n.queued.len() implies #[trigger] n.idle[i]
                != #[trigger] n.queued[j] by {
            if j < m.queued.len() {
                assert(m.idle[i] != m.queued[j]);
            } else {
                assert(m.idle[i] != m.idle[m.idle.len() - 1]);
            }
        }
        assert forall|i: int, j: int|
            0 <= i < n.queued.len() && 0 <= j < n.queued.len() && i != j implies n.queued[i]
                != n.queued[j] by {
            if i < m.queued.len() && j < m.queued.len() {
            } else if i < m.queued.len() {
                assert(m.idle[m.idle.len() - 1] != m.queued[i]);
            } else {
                assert(m.idle[m.idle.len() - 1] != m.queued[j]);
            }
        }
    }
}

/// Handing back `n` buffers, no more than are queued, moves them from the
/// queue to the pool and keeps the streamer well formed.
proof fn lemma_reclaimed_n(m: StreamerModel, n: nat)
    requires
        m.wf(),
        n <= m.queued.len(),
    ensures
        m.reclaimed_n(n).wf(),
        m.reclaimed_n(n).idle.len() == m.idle.len() + n,
        m.reclaimed_n(n).queued.len() == m.queued.len() - n,
        m.reclaimed_n(n).processed == m.processed,
    decreases n,
{
    if n > 0 {
        lemma_reclaimed_wf(m);
        lemma_reclaimed_n(m.reclaimed(), (n - 1) as nat);
    }
}

/// However buffers move, the idle pool never holds fewer than none nor more
/// than `POOL_SIZE` of them.
pub proof fn lemma_pool_bounded(m: StreamerModel)
    requires
        m.wf(),
    ensures
        0 <= m.idle.len() <= POOL_SIZE,
        m.reclaimed().wf(),
        m.filled().wf(),
        m.stopped().wf(),
{
    lemma_reclaimed_wf(m);
    lemma_filled_wf(m);
}

/// With an active instrument and an idle buffer, a tick fills: it generates
/// the `READAHEAD` frames from the cursor on, moves the buffer it names from
/// the pool to the back of the device queue, and advances the cursor by
/// exactly `READAHEAD`. The one exception is a cursor with no room left
/// below `usize::MAX`, at the very end of the sample timeline: then the tick
/// waits.
pub proof fn lemma_fill_advances(m: StreamerModel, playing: bool)
    requires
        m.wf(),
        m.idle.len() > 0,
    ensures
        m.processed + READAHEAD > usize::MAX ==> m.step(playing, true) == Step::Wait,
        m.processed + READAHEAD <= usize::MAX ==> ({
            let s = m.step(playing, true);
            let n = m.filled();
            &&& s == Step::Fill {
                buffer: m.idle.last(),
                start: SampleTime(m.processed as usize),
                end: SampleTime((m.processed + READAHEAD) as usize),
                play: !playing,
            }
            &&& n.processed == m.processed + READAHEAD
            &&& n.idle.len() == m.idle.len() - 1
            &&& n.queued == m.queued.push(s->buffer)
            &&& n.wf()
        }),
{
    lemma_filled_wf(m);
}

/// Once the instrument falls silent while the device plays, the next tick
/// stops the device, and once the device has handed back every queued buffer
/// the pool is whole again, the queue empty and the cursor back at the start.
pub proof fn lemma_stop_restores_pool(m: StreamerModel)
    requires
        m.wf(),
    ensures
        m.step(true, false) == Step::Stop,
        ({
            let n = m.reclaimed_n(m.queued.len()).stopped();
            &&& n.wf()
            &&& n.idle.len() == POOL_SIZE
            &&& n.queued.len() == 0
            &&& n.processed == 0
        }),
{
    lemma_reclaimed_n(m, m.queued.len());
}

} // verus!
