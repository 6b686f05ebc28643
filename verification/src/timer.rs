//! Clocks that turn elapsed time into a number of due cycles.

use vstd::prelude::*;

verus! {

/// Nanoseconds in one second.
pub const NANOS_PER_SEC: u32 = 1_000_000_000;

/// The number of whole periods of `period` nanoseconds between the time
/// `last` and the time `now`. A `now` that lies before `last` has none.
pub open spec fn cycles_due(period: nat, last: nat, now: nat) -> nat {
    if now >= last {
        ((now - last) as nat) / period
    } else {
        0
    }
}

/// A clock with a fixed period. It remembers when it last reported a due
/// cycle and counts whole periods from there.
pub struct Timer {
    cycle_every_nanos: u128,
    last_cycle_timestamp: u128,
}

impl Timer {
    /// The length of one cycle in nanoseconds.
    pub closed spec fn period(&self) -> nat {
        self.cycle_every_nanos as nat
    }

    /// The elapsed time at which the clock last reported a due cycle.
    pub closed spec fn last(&self) -> nat {
        self.last_cycle_timestamp as nat
    }

    /// A cycle takes at least one nanosecond.
    pub open spec fn wf(&self) -> bool {
        self.period() > 0
    }

    /// The period, in whole nanoseconds, of a clock that runs at `rate_hz`.
    pub open spec fn period_of(rate_hz: u32) -> nat {
        (NANOS_PER_SEC as nat) / (rate_hz as nat)
    }

    /// The number of whole periods between the last report and `now`.
    pub open spec fn due(&self, now: nat) -> nat {
        cycles_due(self.period(), self.last(), now)
    }

    /// A clock that runs at `rate_hz` cycles per second and has last
    /// reported at time zero.
    pub fn new(rate_hz: u32) -> (r: Timer)
        requires
            0 < rate_hz <= NANOS_PER_SEC,
        ensures
            r.wf(),
            r.period() == Self::period_of(rate_hz),
            r.last() == 0,
    {
        assert(1_000_000_000nat / (rate_hz as nat) > 0) by (nonlinear_arith)
            requires
                0 < rate_hz <= 1_000_000_000,
        ;
        Timer { cycle_every_nanos: (NANOS_PER_SEC / rate_hz) as u128, last_cycle_timestamp: 0 }
    }

    /// Changes the rate and keeps the time of the last report.
    pub fn set_rate_hz(&mut self, rate_hz: u32)
        requires
            0 < rate_hz <= NANOS_PER_SEC,
        ensures
            final(self).wf(),
            final(self).period() == Self::period_of(rate_hz),
            final(self).last() == old(self).last(),
    {
        assert(1_000_000_000nat / (rate_hz as nat) > 0) by (nonlinear_arith)
            requires
                0 < rate_hz <= 1_000_000_000,
        ;
        self.cycle_every_nanos = (NANOS_PER_SEC / rate_hz) as u128;
    }

    /// The number of cycles due at `total_elapsed_nanos`. When at least one is
    /// due the clock takes that time as its last report, so the part of a
    /// period that had passed is dropped and not carried over.
    pub fn num_cycles(&mut self, total_elapsed_nanos: u128) -> (r: u128)
        requires
            old(self).wf(),
        ensures
            final(self).wf(),
            r == old(self).due(total_elapsed_nanos as nat),
            final(self).period() == old(self).period(),
            final(self).last() == if r > 0 {
                total_elapsed_nanos as nat
            } else {
                old(self).last()
            },
    {
        if total_elapsed_nanos < self.last_cycle_timestamp {
            return 0;
        }
        let nanos_since_last_cycle: u128 = total_elapsed_nanos - self.last_cycle_timestamp;
        let due: u128 = nanos_since_last_cycle / self.cycle_every_nanos;
        if due > 0 {
            self.last_cycle_timestamp = total_elapsed_nanos;
        }
        due
    }

    /// Sets the time of the last report back to zero.
    pub fn restart(&mut self)
        ensures
            final(self).period() == old(self).period(),
            final(self).last() == 0,
    {
        self.last_cycle_timestamp = 0;
    }
}

} // verus!
