use busconn::{calc_timeout_left, time_left, Error};
use std::time::Instant;

#[test]
fn no_timeout_never_runs_out() {
    assert_eq!(time_left(0, None), Ok(None));
    assert_eq!(time_left(u128::MAX, None), Ok(None));
}

#[test]
fn time_left_is_the_difference() {
    assert_eq!(time_left(0, Some(100)), Ok(Some(100)));
    assert_eq!(time_left(30, Some(100)), Ok(Some(70)));
    assert_eq!(time_left(99, Some(100)), Ok(Some(1)));
}

#[test]
fn time_is_out_when_nothing_is_left() {
    assert_eq!(time_left(100, Some(100)), Err(Error::TimedOut));
    assert_eq!(time_left(101, Some(100)), Err(Error::TimedOut));
    assert_eq!(time_left(0, Some(0)), Err(Error::TimedOut));
}

#[test]
fn a_hundred_milliseconds_last_exactly_that_long() {
    let timeout = Some(100_000_000u128);
    assert_eq!(time_left(99_999_999, timeout), Ok(Some(1)));
    assert_eq!(time_left(100_000_000, timeout), Err(Error::TimedOut));
}

#[test]
fn clock_without_timeout() {
    let start = Instant::now();
    assert_eq!(calc_timeout_left(&start, None), Ok(None));
}

#[test]
fn clock_with_no_time_at_all() {
    let start = Instant::now();
    assert_eq!(calc_timeout_left(&start, Some(0)), Err(Error::TimedOut));
}

#[test]
fn clock_with_time_to_spare() {
    let start = Instant::now();
    let hour = 3_600_000_000_000u128;
    match calc_timeout_left(&start, Some(hour)) {
        Ok(Some(left)) => {
            assert!(left > 0);
            assert!(left <= hour);
        }
        other => panic!("an hour cannot be over yet: {:?}", other),
    }
}

#[test]
fn clock_runs_out_after_the_timeout() {
    let start = Instant::now();
    let timeout = 2_000_000u128;
    while start.elapsed().as_nanos() < timeout {
        std::hint::spin_loop();
    }
    assert_eq!(calc_timeout_left(&start, Some(timeout)), Err(Error::TimedOut));
}
