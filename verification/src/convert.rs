//! Exact integer conversion of raw platform timer samples into durations.
//!
//! Two paths mirror the two kinds of platform timers: one takes a
//! seconds-plus-nanoseconds sample as the platform's signed integers, the
//! other takes a tick count and a calibration frequency and divides with a
//! widened multiply so no sub-tick precision is lost.

use crate::duration::Duration;
use vstd::prelude::*;

verus! {

/// Why a raw sample could not be converted: the execution environment
/// handed back a value outside the range a duration can represent, which
/// the caller is expected to treat as unrecoverable.
#[derive(Clone, Copy, Debug, PartialEq, Eq, Structural)]
pub enum ClockError {
    /// The seconds component was negative and cannot fit an unsigned type.
    SecondsOutOfRange,
    /// The nanoseconds component was negative or above `u32::MAX`.
    NanosecondsOutOfRange,
}

/// The total nanoseconds that `c` ticks of a counter running at `f` ticks
/// per second span: whole seconds contribute `c / f` each worth a billion
/// nanoseconds, and the remainder ticks contribute the floor of their
/// exact nanosecond value.
pub open spec fn spec_ticks_to_nanos(c: int, f: int) -> int {
    (c / f) * 1_000_000_000 + (c % f) * 1_000_000_000 / f
}

/// Converts a seconds-plus-nanoseconds sample, as a platform's signed
/// integers, into a duration.  Fails exactly when a component falls
/// outside the unsigned range the duration stores; a nanosecond component
/// up to `u32::MAX` is accepted and its whole seconds carried over.
pub fn timespec_to_duration(tv_sec: i64, tv_nsec: i64) -> (r: Result<Duration, ClockError>)
    ensures
        r is Ok <==> 0 <= tv_sec && 0 <= tv_nsec <= u32::MAX,
        r matches Ok(d) ==> d.wf() && d@ == tv_sec * 1_000_000_000 + tv_nsec,
        tv_sec < 0 ==> r == Result::<Duration, ClockError>::Err(ClockError::SecondsOutOfRange),
        tv_sec >= 0 && !(0 <= tv_nsec <= u32::MAX) ==> r == Result::<
            Duration,
            ClockError,
        >::Err(ClockError::NanosecondsOutOfRange),
{
    if tv_sec < 0 {
        Err(ClockError::SecondsOutOfRange)
    } else if tv_nsec < 0 || tv_nsec > u32::MAX as i64 {
        Err(ClockError::NanosecondsOutOfRange)
    } else {
        let carry: u64 = (tv_nsec as u64) / 1_000_000_000;
        let nanos: u32 = ((tv_nsec as u64) % 1_000_000_000) as u32;
        let secs: u64 = (tv_sec as u64) + carry;
        proof {
            vstd::arithmetic::div_mod::lemma_fundamental_div_mod(tv_nsec as int, 1_000_000_000);
            assert(secs * 1_000_000_000 + nanos == tv_sec * 1_000_000_000 + tv_nsec);
        }
        Ok(Duration::new(secs, nanos))
    }
}

/// Converts a tick count at a calibration frequency into a duration, using
/// a widened multiply before the divide so the sub-second component is the
/// exact floor of the remainder's nanosecond value.
pub fn ticks_to_duration(counter: u64, freq: u64) -> (r: Duration)
    requires
        freq > 0,
    ensures
        r.wf(),
        r@ == spec_ticks_to_nanos(counter as int, freq as int),
        r@ / 1_000_000_000 == counter as int / freq as int,
        r@ % 1_000_000_000 == (counter as int % freq as int) * 1_000_000_000 / freq as int,
{
    let secs: u64 = counter / freq;
    let rem: u64 = counter % freq;
    let wide: u128 = (rem as u128) * 1_000_000_000;
    let nanos_wide: u128 = wide / (freq as u128);
    proof {
        assert(rem < freq);
        assert((rem as int) * 1_000_000_000 / (freq as int) < 1_000_000_000) by (nonlinear_arith)
            requires
                0 < freq,
                rem < freq,
        ;
    }
    let nanos: u32 = nanos_wide as u32;
    let d = Duration::new(secs, nanos);
    proof {
        vstd::arithmetic::div_mod::lemma_fundamental_div_mod_converse(
            d@, 1_000_000_000, secs as int, nanos as int);
    }
    d
}

} // verus!
