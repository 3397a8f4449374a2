use rusty_rtos_backoff::prelude::{Backoff, RETRY_FOREVER};
use rusty_rtos_core::error::Error;

#[test]
fn new_holds_the_given_parameters() {
    let b = Backoff::new(500, 10_000, 5);
    assert_eq!(b.next_jitter_max(), 500);
    assert_eq!(b.max_backoff_delay(), 10_000);
    assert_eq!(b.attempts_done(), 0);
    assert_eq!(b.max_retry_attempts(), 5);
    assert!(!b.exhausted());
}

#[test]
fn retry_forever_is_the_largest_u32() {
    assert_eq!(RETRY_FOREVER, u32::MAX);
}

#[test]
fn delay_is_random_modulo_the_inclusive_span() {
    let mut b = Backoff::new(500, 10_000, 5);
    // 1234 % 501 == 232
    assert_eq!(b.next_backoff(1234), Ok(232));
    // the jitter maximum doubled to 1000: 1000 % 1001 == 1000
    assert_eq!(b.next_backoff(1000), Ok(1000));
    // now 2000: 2001 % 2001 == 0
    assert_eq!(b.next_backoff(2001), Ok(0));
}

#[test]
fn the_full_u16_range_does_not_wrap() {
    let mut b = Backoff::new(u16::MAX, u16::MAX, RETRY_FOREVER);
    // u32::MAX % 65_536 == 65_535
    assert_eq!(b.next_backoff(u32::MAX), Ok(u16::MAX));
    assert_eq!(b.next_jitter_max(), u16::MAX);
}

#[test]
fn exactly_the_allowed_attempts_succeed() {
    let mut b = Backoff::new(10, 1000, 3);
    for n in 1..=3u32 {
        assert!(b.next_backoff(n).is_ok());
        assert_eq!(b.attempts_done(), n);
    }
    assert!(b.exhausted());
    assert_eq!(b.next_backoff(7), Err(Error::Timeout));
    assert_eq!(b.attempts_done(), 3);
}

#[test]
fn zero_attempts_refuse_the_first_call() {
    let mut b = Backoff::new(250, 4000, 0);
    assert!(b.exhausted());
    assert_eq!(b.next_backoff(99), Err(Error::Timeout));
    assert_eq!(b.next_jitter_max(), 250);
    assert_eq!(b.attempts_done(), 0);
}

#[test]
fn the_clamp_goes_to_the_ceiling_exactly() {
    let mut b = Backoff::new(3000, 10_000, RETRY_FOREVER);
    assert!(b.next_backoff(0).is_ok());
    // 3000 < 5000: doubles to 6000
    assert_eq!(b.next_jitter_max(), 6000);
    assert!(b.next_backoff(0).is_ok());
    // 6000 >= 5000: clamps to 10_000, not 12_000
    assert_eq!(b.next_jitter_max(), 10_000);
    assert!(b.next_backoff(0).is_ok());
    assert_eq!(b.next_jitter_max(), 10_000);
}

#[test]
fn a_ceiling_below_the_base_clamps_down_at_once() {
    let mut b = Backoff::new(1000, 100, 6);
    assert!(b.next_backoff(5).is_ok());
    assert_eq!(b.next_jitter_max(), 100);
    assert_eq!(b.max_backoff_delay(), 100);
}

#[test]
fn a_zero_base_always_answers_zero() {
    let mut b = Backoff::new(0, 1000, 6);
    for random in [0u32, 1, 12_345, u32::MAX] {
        assert_eq!(b.next_backoff(random), Ok(0));
        assert_eq!(b.next_jitter_max(), 0);
    }
}

#[test]
fn the_limits_never_change() {
    let mut b = Backoff::new(1, 64, 4);
    for random in 0..10u32 {
        let _ = b.next_backoff(random);
        assert_eq!(b.max_backoff_delay(), 64);
        assert_eq!(b.max_retry_attempts(), 4);
        assert!(b.next_jitter_max() <= 64);
    }
}

#[test]
fn every_value_up_to_the_maximum_is_reachable() {
    for d in 0..=20u32 {
        let mut b = Backoff::new(20, 20, RETRY_FOREVER);
        assert_eq!(b.next_backoff(d), Ok(d as u16));
    }
}
