//! The clock state for platforms whose monotonic timer already reports
//! seconds and nanoseconds.  The timer query itself happens outside this
//! crate; [`Clock::elapsed`] takes the raw sample as the platform's two
//! signed integers and does the checked conversion and the clamping.

use crate::clamp::MonotonicClamp;
use crate::clamp::spec_clamp;
use crate::convert::ClockError;
use crate::convert::timespec_to_duration;
use crate::duration::Duration;
use vstd::prelude::*;

verus! {

/// A monotonic clock over a seconds-plus-nanoseconds timer; viewed as the
/// total nanoseconds of the largest duration returned so far.
#[derive(Clone, Copy, Debug)]
pub struct Clock {
    last_elapsed: MonotonicClamp,
}

impl View for Clock {
    type V = int;

    closed spec fn view(&self) -> int {
        self.last_elapsed@
    }
}

impl Clock {
    /// The clamp state is well formed.
    pub closed spec fn wf(&self) -> bool {
        self.last_elapsed.wf()
    }

    /// A fresh clock whose clamp starts at the zero duration.
    pub fn new() -> (r: Clock)
        ensures
            r.wf(),
            r@ == 0,
    {
        Clock { last_elapsed: MonotonicClamp::new() }
    }

    /// Converts one raw timer sample and clamps it against everything
    /// returned before.  Succeeds exactly when both components fit the
    /// unsigned duration representation; on failure the clock is left
    /// unchanged, and the caller is expected to treat the error as an
    /// unrecoverable failure of the execution environment.
    pub fn elapsed(&mut self, tv_sec: i64, tv_nsec: i64) -> (r: Result<Duration, ClockError>)
        requires
            old(self).wf(),
        ensures
            final(self).wf(),
            r is Ok <==> 0 <= tv_sec && 0 <= tv_nsec <= u32::MAX,
            r matches Ok(d) ==> d.wf() && d@ == spec_clamp(
                old(self)@,
                tv_sec * 1_000_000_000 + tv_nsec,
            ) && final(self)@ == d@,
            r is Err ==> final(self)@ == old(self)@,
            tv_sec < 0 ==> r == Result::<Duration, ClockError>::Err(ClockError::SecondsOutOfRange),
            tv_sec >= 0 && !(0 <= tv_nsec <= u32::MAX) ==> r == Result::<
                Duration,
                ClockError,
            >::Err(ClockError::NanosecondsOutOfRange),
            final(self)@ >= old(self)@,
    {
        match timespec_to_duration(tv_sec, tv_nsec) {
            Ok(d) => Ok(self.last_elapsed.update(d)),
            Err(e) => Err(e),
        }
    }
}

} // verus!
