use huskarl_login::liveness::{default_idle_timeout, LivenessConfig, LivenessVerdict};
use huskarl_login::time::{Duration, Timestamp};

fn hour() -> Duration {
    Duration::from_hours(1)
}

fn day() -> Duration {
    Duration::from_hours(24)
}

fn config(idle_timeout: Option<Duration>) -> LivenessConfig {
    LivenessConfig {
        idle_timeout,
        touch_min_interval: hour(),
    }
}

fn before(t: Timestamp, d: Duration) -> Timestamp {
    Timestamp {
        nanos: t.nanos - d.nanos as i128,
    }
}

// -- verdict --

#[test]
fn missing_entry_is_fail_open_active() {
    let now = Timestamp::epoch().plus(day());
    assert_eq!(
        config(Some(hour())).verdict(None, now),
        LivenessVerdict::Active
    );
}

#[test]
fn recent_activity_is_active() {
    let now = Timestamp::epoch().plus(day());
    let last_active = before(now, Duration::from_secs(60));
    assert_eq!(
        config(Some(hour())).verdict(Some(last_active), now),
        LivenessVerdict::Active
    );
}

#[test]
fn idle_past_timeout_expires() {
    let now = Timestamp::epoch().plus(day());
    let last_active = before(before(now, hour()), Duration::from_secs(1));
    assert_eq!(
        config(Some(hour())).verdict(Some(last_active), now),
        LivenessVerdict::Expired
    );
}

#[test]
fn no_idle_timeout_never_expires() {
    let now = Timestamp::epoch().plus(day());
    assert_eq!(
        config(None).verdict(Some(Timestamp::epoch()), now),
        LivenessVerdict::Active
    );
}

#[test]
fn future_last_active_is_active_not_expired() {
    let now = Timestamp::epoch().plus(day());
    let last_active = now.plus(hour()); // clock skew into the future
    assert_eq!(
        config(Some(hour())).verdict(Some(last_active), now),
        LivenessVerdict::Active
    );
}

#[test]
fn default_touch_min_interval_is_one_hour() {
    assert_eq!(LivenessConfig::default().touch_min_interval, hour());
}

// -- configuration --

#[test]
fn idle_timeout_defaults_to_thirty_days() {
    assert_eq!(default_idle_timeout(), Duration::from_hours(720));
    let c = LivenessConfig::new(None, None).unwrap();
    assert_eq!(c.idle_timeout, Some(Duration::from_hours(720)));
    assert_eq!(c.touch_min_interval, hour());
}

#[test]
fn touch_interval_is_derived_from_a_short_idle_timeout() {
    let c = LivenessConfig::new(Some(hour()), None).unwrap();
    assert_eq!(c.touch_min_interval, Duration::from_mins(15));
}

#[test]
fn touch_interval_must_stay_below_the_idle_timeout() {
    let e = LivenessConfig::new(Some(hour()), Some(hour())).unwrap_err();
    assert_eq!(e.touch_min_interval, hour());
    assert_eq!(e.idle_timeout, hour());
}

// -- touches --

#[test]
fn touches_are_throttled() {
    let c = config(Some(day()));
    let now = Timestamp::epoch().plus(day());
    assert!(c.is_touch_due(None, now));
    assert!(!c.is_touch_due(Some(before(now, Duration::from_mins(59))), now));
    assert!(c.is_touch_due(Some(before(now, hour())), now));
    assert!(!c.is_touch_due(Some(now.plus(hour())), now));
}

#[test]
fn entry_lasts_until_the_deadline_or_the_activity_horizon() {
    let c = config(Some(day()));
    let now = Timestamp::epoch().plus(day());
    let token_expiry = now.plus(hour());
    let horizon = token_expiry.plus(day());
    assert_eq!(c.touch_deadline(None, token_expiry, now), Some(horizon));
    assert_eq!(
        c.touch_deadline(Some(now.plus(hour())), token_expiry, now),
        Some(now.plus(hour()))
    );
    assert_eq!(config(None).touch_deadline(None, token_expiry, now), None);
}

#[test]
fn steady_activity_never_idles_out() {
    // A request every idle timeout less the touch interval keeps it alive.
    let c = LivenessConfig::new(Some(Duration::from_hours(4)), Some(hour())).unwrap();
    let mut last_active = None;
    let mut now = Timestamp::epoch();
    for _ in 0..50 {
        assert_eq!(c.verdict(last_active, now), LivenessVerdict::Active);
        if c.is_touch_due(last_active, now) {
            last_active = Some(now);
        }
        now = now.plus(Duration::from_hours(3));
    }
}

#[test]
fn frequent_requests_write_once_per_interval() {
    let c = config(Some(day()));
    let mut last_active = None;
    let mut writes = 0;
    let mut now = Timestamp::epoch();
    for _ in 0..121 {
        if c.is_touch_due(last_active, now) {
            last_active = Some(now);
            writes += 1;
        }
        now = now.plus(Duration::from_mins(1));
    }
    assert_eq!(writes, 3);
}
