//! A monotonic clock whose readings are plain `(seconds, nanoseconds)`
//! duration values rather than opaque platform handles.
//!
//! Each [`Clock`] instance guarantees that the sequence of durations it
//! returns never decreases, even if the underlying platform timer briefly
//! reports a smaller raw value: a running-maximum clamp absorbs any such
//! sample.  The platform timer itself is queried outside this crate; the
//! functions here take the raw samples as plain integers and do the
//! conversion and clamping with exact integer arithmetic.

pub mod clamp;
pub mod convert;
pub mod duration;
pub mod unix;
pub mod windows;

use crate::clamp::spec_clamp;
use crate::convert::ClockError;
use crate::duration::Duration;
use vstd::prelude::*;

verus! {

/// A monotonic clock: composes the seconds-plus-nanoseconds platform
/// backend with the running-maximum clamp, so the durations it returns for
/// one instance never decrease.  Viewed as the total nanoseconds of the
/// largest duration returned so far.
#[derive(Clone, Copy, Debug)]
pub struct Clock {
    inner: unix::Clock,
}

impl View for Clock {
    type V = int;

    closed spec fn view(&self) -> int {
        self.inner@
    }
}

impl Clock {
    /// The inner clock state is well formed.
    pub closed spec fn wf(&self) -> bool {
        self.inner.wf()
    }

    /// Instantiates a fresh, independent clock whose clamp starts at the
    /// zero duration.  Construction never fails: no platform call is
    /// needed until the first sample is converted.
    pub fn new() -> (r: Clock)
        ensures
            r.wf(),
            r@ == 0,
    {
        Clock { inner: unix::Clock::new() }
    }

    /// Converts one raw sample of the platform's monotonic timer into the
    /// time elapsed since the timer's fixed epoch, clamped so it is at
    /// least every duration this instance returned before.  Succeeds
    /// exactly when both sample components fit the unsigned duration
    /// representation; on failure the clock is left unchanged, and the
    /// caller is expected to treat the error as an unrecoverable failure
    /// of the execution environment.
    pub fn elapsed(&mut self, tv_sec: i64, tv_nsec: i64) -> (r: Result<Duration, ClockError>)
        requires
            old(self).wf(),
        ensures
            final(self).wf(),
            r is Ok <==> 0 <= tv_sec && 0 <= tv_nsec <= u32::MAX,
            r matches Ok(d) ==> d.wf() && d@ == spec_clamp(
                old(self)@,
                tv_sec * 1_000_000_000 + tv_nsec,
            ) && final(self)@ == d@,
            r is Err ==> final(self)@ == old(self)@,
            tv_sec < 0 ==> r == Result::<Duration, ClockError>::Err(ClockError::SecondsOutOfRange),
            tv_sec >= 0 && !(0 <= tv_nsec <= u32::MAX) ==> r == Result::<
                Duration,
                ClockError,
            >::Err(ClockError::NanosecondsOutOfRange),
            final(self)@ >= old(self)@,
    {
        self.inner.elapsed(tv_sec, tv_nsec)
    }
}

} // verus!
