use vstd::prelude::*;

verus! {

/// Nanoseconds in one second.
pub const NANOS_PER_SEC: u64 = 1_000_000_000;

/// A repeating countdown timer, counted in nanoseconds.
///
/// Each tick adds the frame's delta to the elapsed time; whenever the elapsed
/// time reaches the interval the timer completes and starts over with what
/// went past the interval.
#[derive(Clone, Copy, Debug, PartialEq, Eq, Structural)]
pub struct RepeatingTimer {
    /// The interval between two completions.
    pub duration: u64,
    /// Time accumulated since the last completion.
    pub elapsed: u64,
    /// How many completions the last tick went through.
    pub times_finished_this_tick: u64,
}

impl RepeatingTimer {
    /// A running timer has a positive interval and has not yet reached it.
    pub open spec fn wf(self) -> bool {
        self.duration > 0 && self.elapsed < self.duration
    }

    /// Whether the last tick completed the interval at least once.
    pub open spec fn spec_just_finished(self) -> bool {
        self.times_finished_this_tick > 0
    }

    /// The state after a tick of `delta` nanoseconds.
    pub open spec fn ticked(self, delta: nat) -> RepeatingTimer {
        let total = self.elapsed + delta;
        RepeatingTimer {
            duration: self.duration,
            elapsed: (total % (self.duration as int)) as u64,
            times_finished_this_tick: (total / (self.duration as int)) as u64,
        }
    }

    /// A fresh timer with an interval of `duration` nanoseconds.
    pub fn new(duration: u64) -> (r: RepeatingTimer)
        requires
            duration > 0,
        ensures
            r.wf(),
            r.duration == duration,
            r.elapsed == 0,
            !r.spec_just_finished(),
    {
        RepeatingTimer { duration, elapsed: 0, times_finished_this_tick: 0 }
    }

    /// A fresh timer whose interval is `millis` milliseconds.
    pub fn from_millis(millis: u64) -> (r: RepeatingTimer)
        requires
            0 < millis <= u64::MAX / 1_000_000,
        ensures
            r.wf(),
            r.duration == millis * 1_000_000,
            r.elapsed == 0,
            !r.spec_just_finished(),
    {
        RepeatingTimer::new(millis * 1_000_000)
    }

    /// Whether the last tick completed the interval: true only on the tick
    /// that crossed it, however far past it that tick went.
    pub fn just_finished(&self) -> (r: bool)
        ensures
            r == self.spec_just_finished(),
    {
        self.times_finished_this_tick > 0
    }

    /// Advances the timer by `delta` nanoseconds.
    pub fn tick(&mut self, delta: u64)
        requires
            old(self).wf(),
        ensures
            final(self).wf(),
            *final(self) == old(self).ticked(delta as nat),
            final(self).spec_just_finished() <==> old(self).elapsed + delta >= old(self).duration,
    {
        let d = self.duration;
        let e = self.elapsed;
        let left = d - e;
        if delta < left {
            self.elapsed = e + delta;
            self.times_finished_this_tick = 0;
            proof {
                assert((e + delta) as int % (d as int) == e + delta) by (nonlinear_arith)
                    requires e + delta < d;
                assert((e + delta) as int / (d as int) == 0) by (nonlinear_arith)
                    requires e + delta < d;
            }
        } else {
            let past = delta - left;
            let times: u64 = past / d + 1;
            self.elapsed = past % d;
            self.times_finished_this_tick = times;
            proof {
                let total: int = e + delta;
                assert(total == past + d);
                assert(total % (d as int) == past as int % (d as int)) by {
                    vstd::arithmetic::div_mod::lemma_mod_add_multiples_vanish(past as int, d as int);
                }
                assert(total / (d as int) == past as int / (d as int) + 1) by {
                    vstd::arithmetic::div_mod::lemma_div_plus_one(past as int, d as int);
                }
                assert(past % d < d);
            }
        }
    }
}

} // verus!
