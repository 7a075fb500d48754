//! The clock state for platforms whose monotonic timer is a hardware tick
//! counter paired with a calibration frequency queried once at
//! construction.  The counter query itself happens outside this crate;
//! [`Clock::elapsed`] takes the raw tick count as a plain integer and does
//! the exact conversion and the clamping.

use crate::clamp::MonotonicClamp;
use crate::clamp::spec_clamp;
use crate::convert::spec_ticks_to_nanos;
use crate::convert::ticks_to_duration;
use crate::duration::Duration;
use vstd::prelude::*;

verus! {

/// A monotonic clock over a tick counter running at a fixed frequency;
/// viewed as the total nanoseconds of the largest duration returned so
/// far.
#[derive(Clone, Copy, Debug)]
pub struct Clock {
    freq: u64,
    last_elapsed: MonotonicClamp,
}

impl View for Clock {
    type V = int;

    closed spec fn view(&self) -> int {
        self.last_elapsed@
    }
}

impl Clock {
    /// The calibration frequency, in ticks per second.
    pub closed spec fn spec_freq(&self) -> int {
        self.freq as int
    }

    /// The frequency is positive and the clamp state is well formed.
    pub closed spec fn wf(&self) -> bool {
        self.freq > 0 && self.last_elapsed.wf()
    }

    /// A fresh clock calibrated at `freq` ticks per second, its clamp
    /// starting at the zero duration.  Fails exactly when the reported
    /// frequency is zero, which a working platform timer never reports.
    pub fn new(freq: u64) -> (r: Option<Clock>)
        ensures
            r is Some <==> freq > 0,
            r matches Some(c) ==> c.wf() && c@ == 0 && c.spec_freq() == freq,
    {
        if freq == 0 {
            None
        } else {
            Some(Clock { freq, last_elapsed: MonotonicClamp::new() })
        }
    }

    /// Converts one raw counter sample at the calibrated frequency and
    /// clamps it against everything returned before.
    pub fn elapsed(&mut self, counter: u64) -> (r: Duration)
        requires
            old(self).wf(),
        ensures
            final(self).wf(),
            final(self).spec_freq() == old(self).spec_freq(),
            r.wf(),
            r@ == spec_clamp(
                old(self)@,
                spec_ticks_to_nanos(counter as int, old(self).spec_freq()),
            ),
            final(self)@ == r@,
            final(self)@ >= old(self)@,
    {
        let d = ticks_to_duration(counter, self.freq);
        self.last_elapsed.update(d)
    }
}

} // verus!
