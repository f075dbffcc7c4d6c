use std::collections::HashSet;

use huskarl_login::engine::retry::{
    refresh_retry_delay, retry_delay, REFRESH_RETRY_BASE_DELAY_MS, REFRESH_RETRY_JITTER_MAX_MS,
};
use huskarl_login::time::Duration;

fn base(attempt: u32) -> Duration {
    Duration::from_millis(REFRESH_RETRY_BASE_DELAY_MS * (1u64 << (attempt - 1)))
}

#[test]
fn delay_stays_within_jitter_window() {
    for attempt in 1..=3 {
        let lo = base(attempt);
        let hi = Duration {
            nanos: lo.nanos + Duration::from_millis(REFRESH_RETRY_JITTER_MAX_MS).nanos,
        };
        // Sample repeatedly: a single sample could miss a future
        // off-by-one that only fires near the window edges.
        for _ in 0..50 {
            let d = refresh_retry_delay(attempt);
            assert!(
                d >= lo && d < hi,
                "attempt {attempt}: delay {d:?} out of [{lo:?}, {hi:?})",
            );
        }
    }
}

#[test]
fn later_attempts_strictly_outpace_earlier_ones() {
    // Attempt n+1's minimum (2×base) must exceed attempt n's maximum
    // (base + jitter_max). Holds as long as jitter_max < base, which the
    // constants enforce: 50ms < 100ms.
    assert!(
        Duration::from_millis(REFRESH_RETRY_JITTER_MAX_MS)
            < Duration::from_millis(REFRESH_RETRY_BASE_DELAY_MS),
        "jitter must stay below base or successive windows overlap",
    );
}

#[test]
fn jitter_actually_varies_across_calls() {
    // With a real PRNG, 50 samples should produce many distinct values.
    // A single value would mean the random source isn't wired up.
    let samples: HashSet<Duration> = (0..50).map(|_| refresh_retry_delay(1)).collect();
    assert!(
        samples.len() > 5,
        "expected jitter to vary, got {samples:?}"
    );
}

#[test]
fn delay_doubles_and_then_stays() {
    assert_eq!(retry_delay(1, 0), Duration::from_millis(100));
    assert_eq!(retry_delay(2, 7), Duration::from_millis(207));
    assert_eq!(retry_delay(3, 49), Duration::from_millis(449));
    assert_eq!(retry_delay(17, 0), Duration::from_millis(6_553_600));
    assert_eq!(retry_delay(18, 0), Duration::from_millis(6_553_600));
    assert_eq!(retry_delay(u32::MAX, 0), Duration::from_millis(6_553_600));
}
