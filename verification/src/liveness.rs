//! Server-side session liveness (idle) tracking.
//!
//! The `last_active` timestamp backing idle-timeout enforcement is tracked only
//! for store-backed sessions and kept separate from session storage. Idle
//! enforcement fails open: a missing entry or read error is treated as active,
//! never expired.

use vstd::prelude::*;

use crate::session_state::{activity_horizon, earliest, horizon, sooner_of};
use crate::time::{Duration, Timestamp};

verus! {

/// Nanoseconds in an hour.
pub const HOUR_NANOS: u128 = 3_600_000_000_000;

/// The default idle timeout in nanoseconds: 30 days.
pub const DEFAULT_IDLE_NANOS: u128 = 2_592_000_000_000_000;

/// The idle timeout of a deployment that configures none: 30 days.
pub fn default_idle_timeout() -> (d: Duration)
    ensures
        d.nanos == DEFAULT_IDLE_NANOS,
{
    Duration { nanos: DEFAULT_IDLE_NANOS }
}

/// Configuration for session liveness tracking, carried alongside the liveness
/// store.
#[derive(Debug, Clone, Copy, PartialEq, Eq, Structural)]
pub struct LivenessConfig {
    /// Kill the session after this much inactivity. `None` tracks
    /// `last_active` without enforcing an idle timeout.
    pub idle_timeout: Option<Duration>,
    /// Minimum interval between liveness writes for an active session; below
    /// the idle timeout in every configuration built by
    /// [`new`](Self::new).
    pub touch_min_interval: Duration,
}

/// A touch interval that is not below the idle timeout: continuously active
/// sessions would idle out under it.
#[derive(Debug, Clone, Copy, PartialEq, Eq, Structural)]
pub struct InvalidTouchInterval {
    /// The offending interval.
    pub touch_min_interval: Duration,
    /// The idle timeout it has to stay below.
    pub idle_timeout: Duration,
}

/// The touch interval derived from an idle timeout: a quarter of it, an hour
/// at most.
pub open spec fn derived_interval(idle_timeout: Duration) -> Duration {
    Duration { nanos: idle_timeout.nanos / 4 }.shorter(Duration { nanos: HOUR_NANOS })
}

/// Outcome of evaluating a session's liveness on a request.
#[derive(Debug, Clone, Copy, PartialEq, Eq, Structural)]
pub enum LivenessVerdict {
    /// No liveness is tracked (cookie session, or no liveness store
    /// configured).
    Untracked,
    /// The session is active.
    Active,
    /// The session has been idle longer than the idle timeout and should be
    /// torn down.
    Expired,
}

impl Default for LivenessConfig {
    fn default() -> (c: Self)
        ensures
            c.idle_timeout == Some(Duration { nanos: DEFAULT_IDLE_NANOS }),
            c.touch_min_interval.nanos == HOUR_NANOS,
    {
        LivenessConfig {
            idle_timeout: Some(default_idle_timeout()),
            touch_min_interval: Duration { nanos: HOUR_NANOS },
        }
    }
}

impl LivenessConfig {
    /// Builds a configuration: `idle_timeout` defaults to 30 days,
    /// `touch_min_interval` to a quarter of the idle timeout, an hour at most.
    ///
    /// # Errors
    ///
    /// Returns [`InvalidTouchInterval`] if the interval is not below the idle
    /// timeout.
    pub fn new(idle_timeout: Option<Duration>, touch_min_interval: Option<Duration>) -> (r: Result<
        Self,
        InvalidTouchInterval,
    >)
        ensures
            ({
                let idle = match idle_timeout {
                    Some(d) => d,
                    None => Duration { nanos: DEFAULT_IDLE_NANOS },
                };
                let interval = match touch_min_interval {
                    Some(d) => d,
                    None => derived_interval(idle),
                };
                match r {
                    Ok(c) => {
                        &&& interval.nanos < idle.nanos
                        &&& c.idle_timeout == Some(idle)
                        &&& c.touch_min_interval == interval
                    },
                    Err(e) => {
                        &&& interval.nanos >= idle.nanos
                        &&& e.touch_min_interval == interval
                        &&& e.idle_timeout == idle
                    },
                }
            }),
    {
        let idle = match idle_timeout {
            Some(d) => d,
            None => default_idle_timeout(),
        };
        let interval = match touch_min_interval {
            Some(d) => d,
            None => Duration { nanos: idle.nanos / 4 }.min_with(Duration { nanos: HOUR_NANOS }),
        };
        if interval.nanos < idle.nanos {
            Ok(LivenessConfig { idle_timeout: Some(idle), touch_min_interval: interval })
        } else {
            Err(InvalidTouchInterval { touch_min_interval: interval, idle_timeout: idle })
        }
    }

    /// The verdict on a successfully read `last_active`: expired exactly when
    /// there is an entry, an idle timeout, and more idle time than that.
    pub open spec fn judges(self, last_active: Option<Timestamp>, now: Timestamp) -> LivenessVerdict {
        match (last_active, self.idle_timeout) {
            (Some(last), Some(timeout)) => if now.elapsed(last).nanos > timeout.nanos {
                LivenessVerdict::Expired
            } else {
                LivenessVerdict::Active
            },
            _ => LivenessVerdict::Active,
        }
    }

    /// Decides the [`LivenessVerdict`] for a successfully-read `last_active`
    /// against the current time. `None` and future (clock-skewed) values are
    /// treated as active.
    #[must_use]
    pub fn verdict(&self, last_active: Option<Timestamp>, now: Timestamp) -> (v: LivenessVerdict)
        ensures
            v == self.judges(last_active, now),
    {
        match last_active {
            Some(last) => match self.idle_timeout {
                Some(timeout) => if now.since(last).nanos > timeout.nanos {
                    LivenessVerdict::Expired
                } else {
                    LivenessVerdict::Active
                },
                None => LivenessVerdict::Active,
            },
            None => LivenessVerdict::Active,
        }
    }

    /// Whether a liveness write is due: there is no entry yet, or the last one
    /// is at least the touch interval old.
    pub open spec fn touch_due(self, last_active: Option<Timestamp>, now: Timestamp) -> bool {
        match last_active {
            Some(last) => now.elapsed(last).nanos >= self.touch_min_interval.nanos,
            None => true,
        }
    }

    /// Whether a liveness write is due: there is no entry yet, or the last one
    /// is at least the touch interval old.
    pub fn is_touch_due(&self, last_active: Option<Timestamp>, now: Timestamp) -> (r: bool)
        ensures
            r == self.touch_due(last_active, now),
    {
        match last_active {
            Some(last) => now.since(last).nanos >= self.touch_min_interval.nanos,
            None => true,
        }
    }

    /// The deadline of the entry written by a touch at `now`: the sooner of
    /// the session's effective absolute deadline and the activity horizon.
    pub open spec fn entry_deadline(
        self,
        expire_at: Option<Timestamp>,
        token_expiry: Timestamp,
        now: Timestamp,
    ) -> Option<Timestamp> {
        match self.idle_timeout {
            Some(idle) => Some(sooner_of(expire_at, activity_horizon(token_expiry, now, idle))),
            None => expire_at,
        }
    }

    /// The deadline of the entry written by a touch at `now`.
    pub fn touch_deadline(
        &self,
        expire_at: Option<Timestamp>,
        token_expiry: Timestamp,
        now: Timestamp,
    ) -> (t: Option<Timestamp>)
        ensures
            t == self.entry_deadline(expire_at, token_expiry, now),
    {
        match self.idle_timeout {
            Some(idle) => Some(earliest(expire_at, horizon(token_expiry, now, idle))),
            None => expire_at,
        }
    }
}

/// `last_active` after a request that counts as activity: throttled, so it
/// moves only when a write is due.
pub open spec fn last_active_after(
    config: LivenessConfig,
    last_active: Option<Timestamp>,
    now: Timestamp,
) -> Timestamp {
    if config.touch_due(last_active, now) {
        now
    } else {
        last_active->0
    }
}

/// A session in steady use never idles out: after a request that counts as
/// activity, any request within `idle_timeout - touch_min_interval` finds the
/// session active.
pub proof fn law_steady_activity_never_idles_out(
    config: LivenessConfig,
    last_active: Option<Timestamp>,
    now: Timestamp,
    next: Timestamp,
)
    requires
        config.idle_timeout is Some,
        config.touch_min_interval.nanos < config.idle_timeout->0.nanos,
        now.nanos <= next.nanos,
        next.nanos - now.nanos <= config.idle_timeout->0.nanos - config.touch_min_interval.nanos,
    ensures
        config.judges(Some(last_active_after(config, last_active, now)), next)
            == LivenessVerdict::Active,
{
}

/// Activity writes are coalesced: `last_active` moves only forward, and by at
/// least the touch interval each time, whatever the requests in between.
pub proof fn law_writes_are_at_least_an_interval_apart(
    config: LivenessConfig,
    last_active: Timestamp,
    now: Timestamp,
)
    requires
        config.touch_min_interval.nanos > 0,
    ensures
        ({
            let after = last_active_after(config, Some(last_active), now);
            after == last_active || after.nanos - last_active.nanos
                >= config.touch_min_interval.nanos
        }),
{
}

/// A liveness entry never lapses before the record it belongs to, as long as
/// the configured cap has not been lowered since login: the record was last
/// written no later than the touch.
pub proof fn law_entry_outlives_record(
    config: LivenessConfig,
    state: crate::session_state::SessionState,
    written: Timestamp,
    touched: Timestamp,
)
    requires
        config.idle_timeout is Some,
        written.nanos <= touched.nanos,
    ensures
        ({
            let entry = config.entry_deadline(state.expire_at, state.token_expiry, touched);
            &&& entry is Some
            &&& entry->0.nanos >= state.deadline_at(written, config.idle_timeout->0).nanos
        }),
{
}

/// A session is judged expired exactly when its last activity lies more than
/// the idle timeout back; without an entry or a timeout, and for an entry that
/// lies ahead, it is active.
pub proof fn law_only_idle_time_expires(
    config: LivenessConfig,
    last_active: Option<Timestamp>,
    now: Timestamp,
    verdict: LivenessVerdict,
)
    requires
        call_ensures(LivenessConfig::verdict, (&config, last_active, now), verdict),
    ensures
        verdict is Expired || verdict is Active,
        verdict is Expired <==> (last_active is Some && config.idle_timeout is Some && now.nanos
            - last_active->0.nanos > config.idle_timeout->0.nanos),
{
}

/// Activity is due to be recorded when there is no entry yet, and once the
/// last one is as old as the touch interval.
pub proof fn law_touch_is_due_after_the_interval(
    config: LivenessConfig,
    last_active: Option<Timestamp>,
    now: Timestamp,
    due: bool,
)
    requires
        call_ensures(LivenessConfig::is_touch_due, (&config, last_active, now), due),
    ensures
        last_active is None ==> due,
        last_active is Some && now.nanos - last_active->0.nanos >= config.touch_min_interval.nanos
            ==> due,
        last_active is Some && now.nanos - last_active->0.nanos < config.touch_min_interval.nanos
            && config.touch_min_interval.nanos > 0 ==> !due,
{
}

/// The entry a touch writes may be discarded at the sooner of the session's
/// deadline and the end of the idle timeout, counted from the later of the
/// touch and the token expiry.
pub proof fn law_touch_deadline_is_the_sooner_one(
    config: LivenessConfig,
    expire_at: Option<Timestamp>,
    token_expiry: Timestamp,
    now: Timestamp,
    deadline: Option<Timestamp>,
)
    requires
        call_ensures(
            LivenessConfig::touch_deadline,
            (&config, expire_at, token_expiry, now),
            deadline,
        ),
    ensures
        config.idle_timeout is None ==> deadline == expire_at,
        config.idle_timeout matches Some(idle) ==> ({
            let from = if token_expiry.nanos > now.nanos {
                token_expiry.nanos
            } else {
                now.nanos
            };
            let idle_end = if from + idle.nanos <= i128::MAX {
                from + idle.nanos
            } else {
                i128::MAX as int
            };
            &&& deadline is Some
            &&& deadline->0.nanos <= idle_end
            &&& expire_at matches Some(end) ==> deadline->0.nanos <= end.nanos
            &&& deadline->0.nanos == idle_end || deadline == expire_at
        }),
{
}

/// A configuration is built from any interval below the timeout, and from no
/// other. What is given is kept; the timeout defaults to 30 days, the interval
/// to a quarter of the timeout or an hour, whichever is shorter, which is
/// always short enough.
pub proof fn law_liveness_settings_are_kept(
    idle_timeout: Option<Duration>,
    touch_min_interval: Option<Duration>,
    r: Result<LivenessConfig, InvalidTouchInterval>,
)
    requires
        call_ensures(LivenessConfig::new, (idle_timeout, touch_min_interval), r),
    ensures
        r matches Ok(c) ==> {
            &&& c.idle_timeout is Some
            &&& c.touch_min_interval.nanos < c.idle_timeout->0.nanos
            &&& idle_timeout is Some ==> c.idle_timeout == idle_timeout
            &&& idle_timeout is None ==> c.idle_timeout->0.nanos == 30 * 24
                * 3_600_000_000_000int
            &&& touch_min_interval matches Some(d) ==> c.touch_min_interval == d
            &&& touch_min_interval is None ==> {
                &&& 4 * c.touch_min_interval.nanos <= c.idle_timeout->0.nanos
                &&& c.touch_min_interval.nanos <= 3_600_000_000_000
                &&& c.touch_min_interval.nanos == 3_600_000_000_000 || 4
                    * c.touch_min_interval.nanos + 4 > c.idle_timeout->0.nanos
            }
        },
        idle_timeout is Some && touch_min_interval is Some ==> (r is Ok
            <==> touch_min_interval->0.nanos < idle_timeout->0.nanos),
        idle_timeout is Some && touch_min_interval is None ==> (r is Ok
            <==> idle_timeout->0.nanos > 0),
        idle_timeout is None && touch_min_interval is None ==> r is Ok,
{
}

/// By default a session idles out after 30 days, and its activity is recorded
/// once an hour.
pub proof fn law_liveness_defaults(c: LivenessConfig, idle: Duration)
    requires
        call_ensures(LivenessConfig::default, (), c),
        call_ensures(default_idle_timeout, (), idle),
    ensures
        idle.nanos == 30 * 24 * 3600 * 1_000_000_000int,
        c.idle_timeout == Some(idle),
        c.touch_min_interval.nanos == 3600 * 1_000_000_000int,
{
}

} // verus!
