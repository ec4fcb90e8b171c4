use outbound_policy::outbound::{Backoff, FailureAccrual};
use outbound_policy::units::{Duration, Fraction, Timestamp};

#[test]
fn duration_new_rejects_an_overlong_nanosecond_part() {
    assert!(Duration::new(1, 999_999_999).is_some());
    assert!(Duration::new(1, 1_000_000_000).is_none());
}

#[test]
fn duration_le_compares_total_lengths() {
    let short = Duration::new(1, 500_000_000).unwrap();
    let long = Duration::new(2, 0).unwrap();
    assert!(short.le(&long));
    assert!(!long.le(&short));
    assert!(short.le(&short));
    let same_secs = Duration::new(1, 600_000_000).unwrap();
    assert!(short.le(&same_secs));
    assert!(!same_secs.le(&short));
}

#[test]
fn timestamp_orders_by_seconds_then_nanoseconds() {
    let earlier = Timestamp::new(-5, 10).unwrap();
    let later = Timestamp::new(3, 0).unwrap();
    assert!(earlier.le(&later));
    assert!(!later.le(&earlier));
    assert!(Timestamp::new(0, 1_000_000_000).is_none());
}

#[test]
fn backoff_new_accepts_a_bounded_jittered_backoff() {
    let min = Duration::new(1, 0).unwrap();
    let max = Duration::new(10, 0).unwrap();
    let jitter = Fraction {
        numerator: 1,
        denominator: 2,
    };
    let backoff = Backoff::new(min, max, jitter).unwrap();
    assert_eq!(backoff.min_penalty, min);
    assert_eq!(backoff.max_penalty, max);
    assert_eq!(backoff.jitter, jitter);
    let _accrual = FailureAccrual::Consecutive {
        max_failures: 7,
        backoff,
    };
}

#[test]
fn backoff_new_rejects_a_minimum_above_the_maximum() {
    let min = Duration::new(10, 1).unwrap();
    let max = Duration::new(10, 0).unwrap();
    let jitter = Fraction {
        numerator: 0,
        denominator: 1,
    };
    assert!(Backoff::new(min, max, jitter).is_none());
}

#[test]
fn backoff_new_rejects_a_jitter_outside_the_unit_interval() {
    let min = Duration::new(1, 0).unwrap();
    let max = Duration::new(2, 0).unwrap();
    assert!(Backoff::new(
        min,
        max,
        Fraction {
            numerator: 3,
            denominator: 2,
        }
    )
    .is_none());
    assert!(Backoff::new(
        min,
        max,
        Fraction {
            numerator: 0,
            denominator: 0,
        }
    )
    .is_none());
    assert!(Backoff::new(
        min,
        max,
        Fraction {
            numerator: 1,
            denominator: 1,
        }
    )
    .is_some());
}
