use moniclock::Clock;
use moniclock::clamp::MonotonicClamp;
use moniclock::convert::ClockError;
use moniclock::convert::ticks_to_duration;
use moniclock::convert::timespec_to_duration;
use moniclock::duration::Duration;

#[test]
fn a_clock_is_instantiated() {
    let _ = Clock::new();
}

#[test]
fn first_sample_is_returned_unclamped() {
    let mut clock = Clock::new();
    let t0 = clock.elapsed(0, 0).unwrap();
    assert_eq!(t0, Duration::zero());
    let t1 = clock.elapsed(12, 345_678_901).unwrap();
    assert_eq!(t1, Duration::new(12, 345_678_901));
}

#[test]
fn clock_is_monotonic_across_out_of_order_samples() {
    let mut clock = Clock::new();
    let t0 = clock.elapsed(5, 500_000_000).unwrap();
    let t1 = clock.elapsed(5, 400_000_000).unwrap();
    let t2 = clock.elapsed(4, 999_999_999).unwrap();
    let t3 = clock.elapsed(6, 0).unwrap();
    assert!(t0.le(&t1));
    assert!(t1.le(&t2));
    assert!(t2.le(&t3));
    assert_eq!(t1, Duration::new(5, 500_000_000));
    assert_eq!(t2, Duration::new(5, 500_000_000));
    assert_eq!(t3, Duration::new(6, 0));
}

#[test]
fn clock_reports_at_least_the_sample_gap() {
    let mut clock = Clock::new();
    let t0 = clock.elapsed(7, 0).unwrap();
    let sleep_duration = Duration::from_millis(100);
    let t1 = clock.elapsed(7, 100_000_000).unwrap();
    assert!(sleep_duration.le(&t1.checked_sub(&t0).unwrap()));
    let t2 = clock.elapsed(7, 150_000_000).unwrap();
    assert!(Duration::from_millis(50).le(&t2.checked_sub(&t1).unwrap()));
    assert!(Duration::from_millis(150).le(&t2.checked_sub(&t0).unwrap()));
}

#[test]
fn clocks_are_independent() {
    let mut a = Clock::new();
    let mut b = Clock::new();
    let a0 = a.elapsed(100, 0).unwrap();
    let b0 = b.elapsed(1, 0).unwrap();
    let b1 = b.elapsed(2, 0).unwrap();
    let a1 = a.elapsed(50, 0).unwrap();
    assert_eq!(a0, Duration::new(100, 0));
    assert_eq!(a1, Duration::new(100, 0));
    assert_eq!(b0, Duration::new(1, 0));
    assert_eq!(b1, Duration::new(2, 0));
}

#[test]
fn clock_rejects_negative_seconds() {
    let mut clock = Clock::new();
    assert_eq!(clock.elapsed(-1, 0), Err(ClockError::SecondsOutOfRange));
    assert_eq!(clock.elapsed(0, 0), Ok(Duration::zero()));
}

#[test]
fn clock_rejects_nanoseconds_outside_u32() {
    let mut clock = Clock::new();
    assert_eq!(clock.elapsed(0, -1), Err(ClockError::NanosecondsOutOfRange));
    assert_eq!(
        clock.elapsed(0, 4_294_967_296),
        Err(ClockError::NanosecondsOutOfRange)
    );
}

#[test]
fn clamp_scenario_out_of_order_sequence() {
    let mut clamp = MonotonicClamp::new();
    let inputs = [100u64, 90, 95, 200];
    let expected = [100u64, 100, 100, 200];
    for (input, want) in inputs.iter().zip(expected.iter()) {
        let out = clamp.update(Duration::from_millis(*input));
        assert_eq!(out, Duration::from_millis(*want));
    }
}

#[test]
fn clamp_starts_at_zero() {
    let mut clamp = MonotonicClamp::new();
    assert_eq!(clamp.last(), Duration::zero());
    let out = clamp.update(Duration::zero());
    assert_eq!(out, Duration::zero());
}

#[test]
fn ticks_convert_exactly_at_frequency_one() {
    let d = ticks_to_duration(123_456_789, 1);
    assert_eq!(d, Duration::new(123_456_789, 0));
}

#[test]
fn ticks_convert_exactly_at_coarse_frequency() {
    let d = ticks_to_duration(10, 3);
    assert_eq!(d, Duration::new(3, 333_333_333));
}

#[test]
fn ticks_convert_exactly_at_typical_frequency() {
    let d = ticks_to_duration(u64::MAX, 10_000_000);
    assert_eq!(d, Duration::new(1_844_674_407_370, 955_161_500));
}

#[test]
fn ticks_convert_exactly_at_extreme_frequency() {
    let d = ticks_to_duration(u64::MAX - 1, u64::MAX);
    assert_eq!(d, Duration::new(0, 999_999_999));
}

#[test]
fn timespec_converts_and_carries_whole_seconds() {
    assert_eq!(
        timespec_to_duration(5, 123_456_789),
        Ok(Duration::new(5, 123_456_789))
    );
    assert_eq!(
        timespec_to_duration(3, 2_500_000_000),
        Ok(Duration::new(5, 500_000_000))
    );
}

#[test]
fn timespec_rejects_out_of_range_components() {
    assert_eq!(
        timespec_to_duration(-5, 0),
        Err(ClockError::SecondsOutOfRange)
    );
    assert_eq!(
        timespec_to_duration(0, -5),
        Err(ClockError::NanosecondsOutOfRange)
    );
    assert_eq!(
        timespec_to_duration(0, 4_294_967_296),
        Err(ClockError::NanosecondsOutOfRange)
    );
}

#[test]
fn variable_frequency_clock_clamps_a_counter_step_back() {
    let mut clock = moniclock::windows::Clock::new(3).unwrap();
    let t0 = clock.elapsed(10);
    assert_eq!(t0, Duration::new(3, 333_333_333));
    let t1 = clock.elapsed(5);
    assert_eq!(t1, Duration::new(3, 333_333_333));
    let t2 = clock.elapsed(12);
    assert_eq!(t2, Duration::new(4, 0));
}

#[test]
fn variable_frequency_clock_needs_a_positive_frequency() {
    assert!(moniclock::windows::Clock::new(0).is_none());
    assert!(moniclock::windows::Clock::new(1).is_some());
}

#[test]
fn durations_compare_and_subtract_exactly() {
    let a = Duration::new(2, 500_000_000);
    let b = Duration::new(3, 100_000_000);
    assert!(a.lt(&b));
    assert!(a.le(&b));
    assert!(!b.le(&a));
    assert!(a.le(&a));
    assert!(!a.lt(&a));
    assert_eq!(b.checked_sub(&a), Some(Duration::new(0, 600_000_000)));
    assert_eq!(a.checked_sub(&b), None);
    assert_eq!(a.checked_sub(&a), Some(Duration::zero()));
}

#[test]
fn duration_accessors_report_the_components() {
    let d = Duration::from_millis(2_345);
    assert_eq!(d.secs(), 2);
    assert_eq!(d.subsec_nanos(), 345_000_000);
    assert_eq!(Duration::from_millis(0), Duration::zero());
}
