use hush::streaming::{Step, Streamer, POOL_SIZE, READAHEAD};
use hush::time::SampleTime;

/// A playback device that plays whatever is queued and finishes buffers on
/// request.
struct Device {
    playing: bool,
    queue: Vec<usize>,
    finished: usize,
}

impl Device {
    fn new() -> Device {
        Device { playing: false, queue: Vec::new(), finished: 0 }
    }
}

/// One tick: hand back the finished buffers, then carry out the step.
fn tick(streamer: &mut Streamer, device: &mut Device, active: bool) -> Step {
    for _ in 0..device.finished {
        let b = device.queue.remove(0);
        assert_eq!(streamer.reclaim(), Some(b));
    }
    device.finished = 0;
    let step = streamer.refresh(device.playing, active);
    match step {
        Step::Wait => {}
        Step::Stop => {
            device.playing = false;
            while !device.queue.is_empty() {
                let b = device.queue.remove(0);
                assert_eq!(streamer.reclaim(), Some(b));
            }
            streamer.stopped();
        }
        Step::Fill { buffer, play, .. } => {
            device.queue.push(buffer);
            streamer.filled();
            if play {
                device.playing = true;
            }
        }
    }
    check_ownership(streamer, device);
    step
}

fn check_ownership(streamer: &Streamer, device: &Device) {
    let idle = streamer.idle();
    let queued = streamer.queued();
    assert_eq!(queued, device.queue.as_slice());
    assert!(idle.len() <= POOL_SIZE);
    assert_eq!(idle.len() + queued.len(), POOL_SIZE);
    for b in idle {
        assert!(!queued.contains(b));
    }
    let mut all: Vec<usize> = idle.iter().chain(queued.iter()).copied().collect();
    all.sort();
    assert_eq!(all, vec![0, 1]);
}

#[test]
fn streamer_starts_idle() {
    let s = Streamer::new();
    assert_eq!(s.idle(), &[0, 1]);
    assert!(s.queued().is_empty());
    assert_eq!(s.processed(), 0);
}

#[test]
fn cold_start_fills_one_buffer_and_plays() {
    let mut s = Streamer::new();
    let mut d = Device::new();
    let step = tick(&mut s, &mut d, true);
    assert_eq!(step, Step::Fill { buffer: 1, start: SampleTime(0), end: SampleTime(READAHEAD), play: true });
    assert!(d.playing);
    assert_eq!(s.idle().len(), 1);
    assert_eq!(s.processed(), READAHEAD);
}

#[test]
fn playing_fills_until_the_pool_is_empty() {
    let mut s = Streamer::new();
    let mut d = Device::new();
    tick(&mut s, &mut d, true);
    let step = tick(&mut s, &mut d, true);
    assert_eq!(
        step,
        Step::Fill { buffer: 0, start: SampleTime(READAHEAD), end: SampleTime(2 * READAHEAD), play: false }
    );
    assert_eq!(s.processed(), 2 * READAHEAD);
    assert!(s.idle().is_empty());
    // backpressure: nothing to fill until the device finishes a buffer
    assert_eq!(tick(&mut s, &mut d, true), Step::Wait);
    assert_eq!(s.processed(), 2 * READAHEAD);
    d.finished = 1;
    let step = tick(&mut s, &mut d, true);
    assert_eq!(
        step,
        Step::Fill { buffer: 1, start: SampleTime(2 * READAHEAD), end: SampleTime(3 * READAHEAD), play: false }
    );
    assert_eq!(s.processed(), 3 * READAHEAD);
}

#[test]
fn inactive_instrument_stops_the_device_and_restores_the_pool() {
    let mut s = Streamer::new();
    let mut d = Device::new();
    tick(&mut s, &mut d, true);
    tick(&mut s, &mut d, true);
    assert!(s.idle().is_empty());
    assert_eq!(tick(&mut s, &mut d, false), Step::Stop);
    assert!(!d.playing);
    assert_eq!(s.idle().len(), POOL_SIZE);
    assert!(s.queued().is_empty());
    assert_eq!(s.processed(), 0);
}

#[test]
fn idle_device_and_instrument_do_nothing() {
    let mut s = Streamer::new();
    let mut d = Device::new();
    assert_eq!(tick(&mut s, &mut d, false), Step::Wait);
    assert_eq!(s.idle().len(), POOL_SIZE);
    assert_eq!(s.processed(), 0);
}

#[test]
fn failed_queueing_is_retried_next_tick() {
    let mut s = Streamer::new();
    // the device refused the buffer: nothing is reported
    let step = s.refresh(false, true);
    assert!(matches!(step, Step::Fill { .. }));
    assert_eq!(s.refresh(false, true), step);
    assert_eq!(s.processed(), 0);
    assert_eq!(s.idle().len(), 2);
}

#[test]
fn reclaim_with_nothing_queued() {
    let mut s = Streamer::new();
    assert_eq!(s.reclaim(), None);
    assert_eq!(s.idle(), &[0, 1]);
}

#[test]
fn pool_stays_within_bounds_over_a_session() {
    let mut s = Streamer::new();
    let mut d = Device::new();
    let pattern = [true, true, true, false, true, false, false, true, true, true, true, false];
    for (n, &active) in pattern.iter().enumerate() {
        if n % 3 == 2 && !d.queue.is_empty() {
            d.finished = 1;
        }
        tick(&mut s, &mut d, active);
        assert!(s.idle().len() <= POOL_SIZE);
    }
}
