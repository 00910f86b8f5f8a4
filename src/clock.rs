use vstd::prelude::*;
use crate::constants::{GAME_SPEED, MAX_LAG, PHASE_ONE};

verus! {

/// What a clock holds, seen as plain values.
pub struct ClockView {
    pub phase: u64,
    pub prev: i64,
    pub lag: i64,
}

/// The simulation clock: a phase accumulator driven by host timestamps
/// (nanoseconds), which filters out degenerate time deltas.
#[derive(Clone, Copy, Debug)]
pub struct Clock {
    phase: u64,
    prev: i64,
    lag: i64,
}

impl View for Clock {
    type V = ClockView;

    closed spec fn view(&self) -> ClockView {
        ClockView { phase: self.phase, prev: self.prev, lag: self.lag }
    }
}

/// A frame delta is accepted when it is strictly between zero and `MAX_LAG`.
pub open spec fn delta_accepted(delta: int) -> bool {
    0 < delta < MAX_LAG
}

/// The phase after accepting `delta` nanoseconds from `phase`.
pub open spec fn advanced_phase(phase: int, delta: int) -> int {
    (phase + GAME_SPEED * delta) % (PHASE_ONE as int)
}

/// The clock after being fed timestamp `t`.
pub open spec fn clock_after(c: ClockView, t: i64) -> ClockView {
    let delta = t - c.prev;
    if delta_accepted(delta) {
        ClockView { phase: advanced_phase(c.phase as int, delta) as u64, prev: t, lag: delta as i64 }
    } else {
        ClockView { prev: t, ..c }
    }
}

impl Clock {
    /// Well-formed: the phase lies in `[0, 1)`.
    pub open spec fn wf(&self) -> bool {
        self@.phase < PHASE_ONE
    }

    pub fn new() -> (r: Self)
        ensures
            r.wf(),
            r@ == (ClockView { phase: 0, prev: 0, lag: 0 }),
    {
        Clock { phase: 0, prev: 0, lag: 0 }
    }

    /// Seeds the last accepted timestamp.
    pub fn seed(&mut self, t: i64)
        requires
            old(self).wf(),
        ensures
            final(self).wf(),
            final(self)@ == (ClockView { prev: t, ..old(self)@ }),
    {
        self.prev = t;
    }

    /// Feeds the host timestamp `t`. The timestamp is always remembered; the
    /// frame is accepted (and the phase advanced) only for a delta strictly
    /// between zero and `MAX_LAG`.
    pub fn advance(&mut self, t: i64) -> (accepted: bool)
        requires
            old(self).wf(),
        ensures
            final(self).wf(),
            final(self)@ == clock_after(old(self)@, t),
            final(self)@.prev == t,
            accepted == delta_accepted(t - old(self)@.prev),
            accepted ==> final(self)@.phase == advanced_phase(old(self)@.phase as int, t - old(self)@.prev),
            accepted ==> final(self)@.lag == t - old(self)@.prev,
            !accepted ==> final(self)@.phase == old(self)@.phase,
            !accepted ==> final(self)@.lag == old(self)@.lag,
    {
        let delta: i128 = t as i128 - self.prev as i128;
        self.prev = t;
        if 0 < delta && delta < MAX_LAG as i128 {
            let d: u64 = delta as u64;
            let incr: u64 = GAME_SPEED * d;
            self.phase = (self.phase + incr) % PHASE_ONE;
            self.lag = d as i64;
            true
        } else {
            false
        }
    }

    /// Current phase, in units of 1/`PHASE_ONE`.
    pub fn phase(&self) -> (r: u64)
        ensures
            r == self@.phase,
    {
        self.phase
    }

    /// Last timestamp fed to the clock.
    pub fn prev(&self) -> (r: i64)
        ensures
            r == self@.prev,
    {
        self.prev
    }

    /// Last accepted delta.
    pub fn lag(&self) -> (r: i64)
        ensures
            r == self@.lag,
    {
        self.lag
    }
}

} // verus!
