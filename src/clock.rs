use vstd::prelude::*;
use crate::avg::{Avg, MAX_VALUE, next_window, seq_sum};

verus! {

/// Samples in a full window: two quarter notes.
pub const WINDOW: usize = 48;

/// Tempo samples are kept in millionths of a beat per minute. A pulse
/// interval of `d` microseconds is a quarter note of `24 * d` microseconds,
/// so `60_000_000 / (24 * d)` beats per minute, which is this constant
/// divided by `d` in millionths.
pub const MICRO_BPM_PER_USEC: u64 = 2_500_000_000_000;

/// Millionths of a beat per minute in tenths, rounded half up.
pub const MICRO_BPM_PER_TENTH: u64 = 100_000;

/// What the averager knows: the time of the last pulse (0: none yet), the
/// last tempo reported, in tenths of a beat per minute (0: none yet), and the
/// tempo samples of the window, oldest first.
pub struct ClockModel {
    pub last_clock: u64,
    pub bpm: u64,
    pub window: Seq<u64>,
}

/// The tempo sample, in millionths of a beat per minute, of pulses `delta`
/// microseconds apart.
pub open spec fn sample_of(delta: int) -> u64 {
    (MICRO_BPM_PER_USEC as int / delta) as u64
}

/// A tempo in millionths of a beat per minute, rounded to tenths.
pub open spec fn tenths_of(micro: u64) -> u64 {
    (micro / MICRO_BPM_PER_TENTH + if micro % MICRO_BPM_PER_TENTH >= MICRO_BPM_PER_TENTH / 2 {
        1u64
    } else {
        0u64
    }) as u64
}

/// The rounded tempo of a full window.
pub open spec fn window_tenths(w: Seq<u64>) -> u64 {
    tenths_of((seq_sum(w) / (WINDOW as int)) as u64)
}

/// Whether a pulse at `t` yields a sample: there was an earlier pulse, and
/// time moved forward since.
pub open spec fn takes_sample(m: ClockModel, t: u64) -> bool {
    m.last_clock != 0 && t > m.last_clock
}

/// The state after a pulse at `t`, and the tempo it reports, if any.
pub open spec fn pulse_step(m: ClockModel, t: u64) -> (ClockModel, Option<u64>) {
    if !takes_sample(m, t) {
        (ClockModel { last_clock: t, bpm: m.bpm, window: m.window }, None)
    } else {
        let w = next_window(m.window, sample_of(t - m.last_clock), WINDOW as nat);
        if w.len() == WINDOW && window_tenths(w) != m.bpm {
            (ClockModel { last_clock: t, bpm: window_tenths(w), window: w }, Some(window_tenths(w)))
        } else {
            (ClockModel { last_clock: t, bpm: m.bpm, window: w }, None)
        }
    }
}

/// No tempo is reported before the window is full, and a reported tempo is
/// the rounded mean of the full window.
pub proof fn lemma_report_needs_full_window(m: ClockModel, t: u64)
    ensures
        pulse_step(m, t).1 matches Some(b) ==> pulse_step(m, t).0.window.len() == WINDOW && b
            == window_tenths(pulse_step(m, t).0.window),
{
}

/// Two pulses in a row whose full windows round to the same tempo report it
/// once at most: the second reports nothing.
pub proof fn lemma_single_report(m: ClockModel, t1: u64, t2: u64)
    requires
        takes_sample(m, t1),
        pulse_step(m, t1).0.window.len() == WINDOW,
        takes_sample(pulse_step(m, t1).0, t2),
        window_tenths(pulse_step(pulse_step(m, t1).0, t2).0.window) == window_tenths(
            pulse_step(m, t1).0.window,
        ),
    ensures
        pulse_step(pulse_step(m, t1).0, t2).1 is None,
{
    let m1 = pulse_step(m, t1).0;
    assert(m1.bpm == window_tenths(m1.window));
    assert(next_window(m1.window, sample_of(t2 - m1.last_clock), WINDOW as nat).len() == WINDOW);
}

/// Tempo tracking from timing clock pulses, reported in tenths of a beat per
/// minute, over a sliding window of the last `WINDOW` pulse intervals.
pub struct ClockAverager {
    avg: Avg,
    last_clock: u64,
    bpm: u64,
}

impl View for ClockAverager {
    type V = ClockModel;

    closed spec fn view(&self) -> ClockModel {
        ClockModel { last_clock: self.last_clock, bpm: self.bpm, window: self.avg.window() }
    }
}

impl ClockAverager {
    pub closed spec fn wf(&self) -> bool {
        self.avg.wf() && self.avg.capacity() == WINDOW
    }

    /// An averager that has seen no pulse.
    pub fn new() -> (r: Self)
        ensures
            r.wf(),
            r@.last_clock == 0,
            r@.bpm == 0,
            r@.window == Seq::<u64>::empty(),
    {
        ClockAverager { avg: Avg::new(WINDOW), last_clock: 0, bpm: 0 }
    }

    /// Takes a timing clock pulse at `timestamp` (microseconds). Returns the
    /// tempo, in tenths of a beat per minute, when the window is full and its
    /// rounded mean differs from the last one reported.
    pub fn pulse(&mut self, timestamp: u64) -> (r: Option<u64>)
        requires
            old(self).wf(),
        ensures
            final(self).wf(),
            (final(self)@, r) == pulse_step(old(self)@, timestamp),
    {
        let mut r: Option<u64> = None;
        if self.last_clock != 0 && timestamp > self.last_clock {
            let diff = timestamp - self.last_clock;
            let sample = MICRO_BPM_PER_USEC / diff;
            assert(sample <= MAX_VALUE);
            match self.avg.add_value(sample) {
                Some(mean) => {
                    let rounding: u64 = if mean % MICRO_BPM_PER_TENTH >= MICRO_BPM_PER_TENTH / 2 {
                        1
                    } else {
                        0
                    };
                    let tenths = mean / MICRO_BPM_PER_TENTH + rounding;
                    if tenths != self.bpm {
                        self.bpm = tenths;
                        r = Some(tenths);
                    }
                },
                None => {},
            }
        }
        self.last_clock = timestamp;
        r
    }
}

} // verus!
