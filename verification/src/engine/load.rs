//! Loading a session: validating it, refreshing its tokens, tearing it down.
//!
//! The session store, the liveness store and the authorization server are
//! reached by the caller. Each function here takes what came back and says
//! what to do next, as a [`LoadStep`].

use http::HeaderMap;
use std::sync::Arc;
use vstd::prelude::*;

use crate::config::{LoginConfig, SessionLifetime};
use crate::engine::base::{refresh_counter, teardown_counter, LoginEngine, TeardownReason};
use crate::engine::response::SetCookies;
use crate::engine::retry::{
    base_delay_ms, refresh_retry_delay, REFRESH_MAX_ATTEMPTS, REFRESH_RETRY_JITTER_MAX_MS,
};
use crate::liveness::LivenessVerdict;
use crate::metrics::{counter_views, Counter, CounterView, RefreshResult};
use crate::session::SessionError;
use crate::session_state::{activity_horizon, sooner_of, SessionState, TokenResponse};
use crate::text::texts;
use crate::time::{Duration, Timestamp};

verus! {

/// Maximum tolerated clock skew when validating sealed timestamps, in
/// nanoseconds (60 seconds): a session or login-state `created_at` further
/// than this ahead of the wall clock is treated as corrupted and rejected.
pub const MAX_CLOCK_SKEW_NANOS: u128 = 60_000_000_000;

/// Whether `timestamp` is more than the tolerated clock skew ahead of `now`.
pub open spec fn too_far_future(timestamp: Timestamp, now: Timestamp) -> bool {
    timestamp.nanos - now.nanos > MAX_CLOCK_SKEW_NANOS
}

/// Returns `true` if `timestamp` is more than the tolerated clock skew ahead of
/// `now`.
pub fn is_too_far_future(timestamp: Timestamp, now: Timestamp) -> (r: bool)
    ensures
        r == too_far_future(timestamp, now),
{
    timestamp.since(now).nanos > MAX_CLOCK_SKEW_NANOS
}

/// A session's effective absolute deadline: the earlier of the deadline frozen
/// into it at login and the one the live configuration implies.
pub open spec fn effective_deadline(
    lifetime: SessionLifetime,
    state: SessionState,
) -> Option<Timestamp> {
    match lifetime.cap() {
        Some(cap) => Some(sooner_of(state.expire_at, state.created_at.later(cap))),
        None => state.expire_at,
    }
}

/// The configured cap works in one direction on sessions already issued:
/// whatever it is, it never extends one past the deadline frozen at login; and
/// a session never outlives the cap now in force.
pub proof fn law_deadline_is_the_tighter_one(lifetime: SessionLifetime, state: SessionState)
    ensures
        state.expire_at matches Some(frozen) ==> effective_deadline(lifetime, state) matches Some(
            d,
        ) && d.nanos <= frozen.nanos,
        lifetime.cap() matches Some(cap) ==> effective_deadline(lifetime, state) matches Some(d)
            && d.nanos <= state.created_at.later(cap).nanos,
        effective_deadline(lifetime, state) is None <==> state.expire_at is None && lifetime.cap()
            is None,
{
}

/// Lowering the cap never postpones a session's end; raising it never advances
/// it.
pub proof fn law_lower_cap_ends_sooner(lower: Duration, higher: Duration, state: SessionState)
    requires
        lower.nanos <= higher.nanos,
    ensures
        effective_deadline(SessionLifetime::Bounded(lower), state)->0.nanos <= effective_deadline(
            SessionLifetime::Bounded(higher),
            state,
        )->0.nanos,
{
}

/// The teardown reason from the absolute checks: clock skew first, then the
/// lifetime.
pub open spec fn teardown_for(
    lifetime: SessionLifetime,
    state: SessionState,
    now: Timestamp,
) -> Option<TeardownReason> {
    if too_far_future(state.created_at, now) {
        Some(TeardownReason::ClockSkew)
    } else if effective_deadline(lifetime, state) matches Some(deadline) && now.nanos
        > deadline.nanos {
        Some(TeardownReason::MaxLifetime)
    } else {
        None
    }
}

/// Whether the access token is at or near its expiry.
pub open spec fn refresh_due(margin: Duration, state: SessionState, now: Timestamp) -> bool {
    now.nanos + margin.nanos >= state.token_expiry.nanos
}

/// What loading a session does next.
#[derive(Debug, Clone, Copy, PartialEq, Eq, Structural)]
pub enum LoadStep {
    /// Done: the request carries no session.
    Missing,
    /// Ask the store for its liveness verdict.
    CheckLiveness {
        /// Whether the request counts as activity.
        record_activity: bool,
        /// The session's effective absolute deadline.
        expire_at: Option<Timestamp>,
    },
    /// Delete the session, best effort, for this reason.
    Delete(TeardownReason),
    /// Exchange the refresh token; this is the given attempt, counted from 1.
    Exchange {
        /// The number of the attempt.
        attempt: u32,
    },
    /// Wait out the retry delay of the given attempt, then make the next one.
    Retry {
        /// The number of the attempt that failed.
        attempt: u32,
    },
    /// Apply the refresh and persist the session.
    Persist,
    /// Done: serve the session as it is.
    Serve,
    /// Done: the session is retained, but the request cannot be served.
    RefreshUnavailable,
}

/// What the authorization server answered to a token exchange.
#[derive(Debug, Clone, Copy, PartialEq, Eq, Structural)]
pub enum ExchangeOutcome {
    /// It issued new tokens.
    Refreshed,
    /// The exchange failed.
    Failed {
        /// Whether the failure is transient.
        retryable: bool,
    },
}

/// The step after the store answered.
pub open spec fn loaded_step(
    lifetime: SessionLifetime,
    counts_as_activity: bool,
    found: Option<SessionState>,
    now: Timestamp,
) -> LoadStep {
    match found {
        None => LoadStep::Missing,
        Some(state) => match teardown_for(lifetime, state, now) {
            Some(reason) => LoadStep::Delete(reason),
            None => LoadStep::CheckLiveness {
                record_activity: counts_as_activity,
                expire_at: effective_deadline(lifetime, state),
            },
        },
    }
}

/// The step after the liveness check. Only an expired session is torn down for
/// it; then the token is refreshed if it is at or near its expiry.
pub open spec fn judged_step(
    margin: Duration,
    verdict: LivenessVerdict,
    state: SessionState,
    now: Timestamp,
) -> LoadStep {
    if verdict is Expired {
        LoadStep::Delete(TeardownReason::IdleTimeout)
    } else if !refresh_due(margin, state, now) {
        LoadStep::Serve
    } else if state.refresh_token is None {
        LoadStep::Delete(TeardownReason::NoRefreshToken)
    } else {
        LoadStep::Exchange { attempt: 1 }
    }
}

/// The step after an exchange. A transient failure is retried while attempts
/// are left; after that the session is served while its token is valid, and
/// retained without being served once it is not. Only a conclusive failure
/// tears it down.
pub open spec fn exchanged_step(
    attempt: u32,
    outcome: ExchangeOutcome,
    token_expiry: Timestamp,
    now: Timestamp,
) -> LoadStep {
    match outcome {
        ExchangeOutcome::Refreshed => LoadStep::Persist,
        ExchangeOutcome::Failed { retryable } => if !retryable {
            LoadStep::Delete(TeardownReason::RefreshRejected)
        } else if attempt < REFRESH_MAX_ATTEMPTS {
            LoadStep::Retry { attempt }
        } else if now.nanos < token_expiry.nanos {
            LoadStep::Serve
        } else {
            LoadStep::RefreshUnavailable
        },
    }
}

/// The attempt that follows a failed one.
pub open spec fn next_attempt(attempt: u32) -> u32 {
    (attempt + 1) as u32
}

/// The counter that goes with the step after an exchange.
pub open spec fn exchange_counters(step: LoadStep, metrics_name: Option<Seq<char>>) -> Seq<
    CounterView,
> {
    match step {
        LoadStep::Persist => seq![refresh_counter(RefreshResult::Success, metrics_name)],
        LoadStep::Serve => seq![refresh_counter(RefreshResult::FailedRetained, metrics_name)],
        LoadStep::RefreshUnavailable => seq![
            refresh_counter(RefreshResult::FailedUnavailable, metrics_name),
        ],
        _ => Seq::empty(),
    }
}

/// The counters that go with a torn-down session.
pub open spec fn delete_counters(reason: TeardownReason, metrics_name: Option<Seq<char>>) -> Seq<
    CounterView,
> {
    match reason {
        TeardownReason::NoRefreshToken => seq![
            refresh_counter(RefreshResult::NoRefreshToken, metrics_name),
            teardown_counter(reason, metrics_name),
        ],
        TeardownReason::RefreshRejected => seq![
            refresh_counter(RefreshResult::Failed, metrics_name),
            teardown_counter(reason, metrics_name),
        ],
        _ => seq![teardown_counter(reason, metrics_name)],
    }
}

/// The save owed for a refreshed session whose eager persist failed: the
/// session and the refresh response that must be re-committed, bound together
/// so an adapter cannot pair a session with the wrong refresh. Hold it across
/// the inner handler, then [`commit`](Self::commit) it in the response phase.
#[must_use]
pub struct PendingPersist<S> {
    session: Arc<S>,
    token_response: TokenResponse,
}

impl<S> PendingPersist<S> {
    /// The session served while the save is owed.
    pub closed spec fn served(&self) -> S {
        *self.session
    }

    /// The refresh whose persist is owed.
    pub closed spec fn owed(&self) -> TokenResponse {
        self.token_response
    }

    /// Pairs a refreshed session with the refresh response whose persist is
    /// owed.
    pub fn new(session: S, token_response: TokenResponse) -> (p: Self)
        ensures
            p.served() == session,
            p.owed() == token_response,
    {
        PendingPersist { session: Arc::new(session), token_response }
    }

    /// The refreshed session (the owed refresh is already applied in memory).
    #[must_use]
    pub fn session(&self) -> (s: &S)
        ensures
            *s == self.served(),
    {
        &self.session
    }

    /// A shared handle to the session, for serving it while this value waits
    /// out the inner handler. The handle never has to be returned.
    #[must_use]
    pub fn session_arc(&self) -> (s: Arc<S>)
        ensures
            *s == self.served(),
    {
        Arc::clone(&self.session)
    }

    /// Hands out what the owed persist has to commit, after the inner service
    /// responded: the refresh is re-applied to the stored session through the
    /// same path as the eager persist.
    pub fn commit(self) -> (owed: (Arc<S>, TokenResponse))
        ensures
            *owed.0 == self.served(),
            owed.1 == self.owed(),
    {
        (self.session, self.token_response)
    }

    /// Gives the owed save up; only correct when it became moot because the
    /// session was deleted instead.
    pub fn abandon(self) {
    }
}

/// The result of loading a session: one variant per session state the adapter
/// can observe.
#[must_use]
pub enum LoadedSession<S> {
    /// The request carried no session cookie.
    Missing,
    /// A session was presented but torn down. `clears` must reach the final
    /// response to drop the now-stale session cookies.
    Cleared {
        /// Why the session was torn down.
        reason: TeardownReason,
        /// `Set-Cookie` clears for the stale session cookies.
        clears: SetCookies,
    },
    /// Authenticated and fully persisted: nothing is owed after the inner
    /// handler responds.
    Active {
        /// The loaded session.
        session: S,
        /// `Set-Cookie` headers that must reach the final response (re-sealed
        /// session cookies after an eager refresh, else empty).
        set_cookies: SetCookies,
    },
    /// A session was presented, its access token has expired, and the token
    /// refresh failed **transiently**: authentication can be neither confirmed
    /// nor refuted right now. The session and its cookies are retained.
    RefreshUnavailable,
    /// Authenticated, with a save owed after the inner handler responds.
    /// Arises only when the eager persist of a refreshed session failed.
    ActivePending {
        /// The refreshed session together with the save owed for it.
        pending: PendingPersist<S>,
    },
}

impl<S> LoadedSession<S> {
    /// Convenience accessor: the session, when the request is authenticated.
    pub fn session(&self) -> (s: Option<&S>)
        ensures
            match self {
                LoadedSession::Active { session, .. } => s matches Some(x) && *x == *session,
                LoadedSession::ActivePending { pending } => s matches Some(x) && *x
                    == pending.served(),
                _ => s is None,
            },
    {
        match self {
            LoadedSession::Missing => None,
            LoadedSession::Cleared { .. } => None,
            LoadedSession::RefreshUnavailable => None,
            LoadedSession::Active { session, .. } => Some(session),
            LoadedSession::ActivePending { pending } => Some(pending.session()),
        }
    }

    /// A session served as it is, with nothing owed to the response.
    pub fn serve(session: S) -> (r: Self)
        ensures
            r matches LoadedSession::Active { session: s, set_cookies } && s == session
                && set_cookies@.len() == 0,
    {
        LoadedSession::Active { session, set_cookies: SetCookies::default() }
    }

    /// A refreshed session whose persist ended: its cookies are owed to the
    /// response, or, where the persist failed, the save is owed after it.
    pub fn persisted(
        session: S,
        token_response: TokenResponse,
        result: Result<Vec<String>, SessionError>,
    ) -> (r: Self)
        ensures
            match result {
                Ok(cookies) => r matches LoadedSession::Active { session: s, set_cookies } && s
                    == session && set_cookies@ == texts(cookies@),
                Err(_) => r matches LoadedSession::ActivePending { pending } && pending.served()
                    == session && pending.owed() == token_response,
            },
    {
        match result {
            Ok(cookies) => LoadedSession::Active { session, set_cookies: SetCookies::new(cookies) },
            Err(_) => LoadedSession::ActivePending {
                pending: PendingPersist::new(session, token_response),
            },
        }
    }
}

impl<SD> LoginEngine<SD> {
    /// The session's effective absolute deadline: the earlier of the deadline
    /// frozen into the session at login and the one the live config implies
    /// (`created_at` + the current cap).
    pub fn session_deadline(&self, state: &SessionState) -> (d: Option<Timestamp>)
        ensures
            d == effective_deadline(self.config.session_lifetime, *state),
    {
        match self.config.session_lifetime.bound() {
            Some(cap) => Some(
                crate::session_state::earliest(state.expire_at, state.created_at.plus(cap)),
            ),
            None => state.expire_at,
        }
    }

    /// Returns the teardown reason from the absolute checks (clock skew, max
    /// lifetime), or `None`. Idle timeout is enforced separately.
    pub fn session_teardown_reason(&self, state: &SessionState, now: Timestamp) -> (r: Option<
        TeardownReason,
    >)
        ensures
            r == teardown_for(self.config.session_lifetime, *state, now),
    {
        if is_too_far_future(state.created_at, now) {
            return Some(TeardownReason::ClockSkew);
        }
        if let Some(deadline) = self.session_deadline(state) {
            if now.nanos > deadline.nanos {
                return Some(TeardownReason::MaxLifetime);
            }
        }
        None
    }

    /// What to do once the store answered: `found` is the state of the session
    /// the request carries, if any.
    pub fn load_session(
        &self,
        found: Option<&SessionState>,
        headers: &HeaderMap,
        now: Timestamp,
    ) -> (step: LoadStep)
        ensures
            step == loaded_step(
                self.config.session_lifetime,
                self.config.activity_policy.counts(*headers),
                match found {
                    Some(state) => Some(*state),
                    None => None,
                },
                now,
            ),
    {
        match found {
            None => LoadStep::Missing,
            Some(state) => match self.session_teardown_reason(state, now) {
                Some(reason) => LoadStep::Delete(reason),
                None => LoadStep::CheckLiveness {
                    record_activity: self.config.activity_policy.counts_as_activity(headers),
                    expire_at: self.session_deadline(state),
                },
            },
        }
    }

    /// What to do once the liveness verdict is in.
    pub fn load_judged(
        &self,
        verdict: LivenessVerdict,
        state: &SessionState,
        now: Timestamp,
    ) -> (step: LoadStep)
        ensures
            step == judged_step(self.config.token_refresh_margin, verdict, *state, now),
    {
        if verdict == LivenessVerdict::Expired {
            return LoadStep::Delete(TeardownReason::IdleTimeout);
        }
        if now.plus(self.config.token_refresh_margin).nanos < state.token_expiry.nanos {
            return LoadStep::Serve;
        }
        if state.refresh_token.is_none() {
            return LoadStep::Delete(TeardownReason::NoRefreshToken);
        }
        LoadStep::Exchange { attempt: 1 }
    }

    /// What to do once the authorization server answered attempt `attempt` at
    /// exchanging the refresh token, and the counters to increment. `now` is
    /// read after the answer: the retries slept, and the token may have expired
    /// meanwhile.
    pub fn refresh_or_clear(
        &self,
        attempt: u32,
        outcome: ExchangeOutcome,
        token_expiry: Timestamp,
        now: Timestamp,
    ) -> (r: (LoadStep, Vec<Counter>))
        ensures
            r.0 == exchanged_step(attempt, outcome, token_expiry, now),
            counter_views(r.1@) == exchange_counters(r.0, self.instance()),
    {
        let step = match outcome {
            ExchangeOutcome::Refreshed => LoadStep::Persist,
            ExchangeOutcome::Failed { retryable } => if !retryable {
                LoadStep::Delete(TeardownReason::RefreshRejected)
            } else if attempt < REFRESH_MAX_ATTEMPTS {
                LoadStep::Retry { attempt }
            } else if now.nanos < token_expiry.nanos {
                LoadStep::Serve
            } else {
                LoadStep::RefreshUnavailable
            },
        };
        let mut counters: Vec<Counter> = Vec::new();
        match step {
            LoadStep::Persist => {
                counters.push(self.record_refresh(RefreshResult::Success));
            },
            LoadStep::Serve => {
                counters.push(self.record_refresh(RefreshResult::FailedRetained));
            },
            LoadStep::RefreshUnavailable => {
                counters.push(self.record_refresh(RefreshResult::FailedUnavailable));
            },
            _ => {},
        }
        proof {
            assert(counter_views(counters@) =~= exchange_counters(step, self.instance()));
        }
        (step, counters)
    }

    /// What follows a failed attempt that is to be retried: how long to wait,
    /// with exponential backoff and jitter, and the next exchange.
    pub fn refresh_with_retry(&self, attempt: u32) -> (r: (Duration, LoadStep))
        requires
            1 <= attempt < REFRESH_MAX_ATTEMPTS,
        ensures
            base_delay_ms(attempt) * 1_000_000 <= r.0.nanos,
            r.0.nanos < (base_delay_ms(attempt) + REFRESH_RETRY_JITTER_MAX_MS) * 1_000_000,
            r.1 == (LoadStep::Exchange { attempt: next_attempt(attempt) }),
    {
        (refresh_retry_delay(attempt), LoadStep::Exchange { attempt: attempt + 1 })
    }

    /// Ends a teardown: `deleted` holds the cookie clears of a delete that
    /// succeeded; one that failed leaves none, and the session is torn down
    /// all the same.
    pub fn delete_best_effort<S>(
        &self,
        reason: TeardownReason,
        deleted: Option<Vec<String>>,
    ) -> (r: (LoadedSession<S>, Vec<Counter>))
        ensures
            r.0 matches LoadedSession::Cleared { reason: why, clears } && why == reason && clears@
                == match deleted {
                Some(cookies) => texts(cookies@),
                None => Seq::empty(),
            },
            counter_views(r.1@) == delete_counters(reason, self.instance()),
    {
        let clears = match deleted {
            Some(cookies) => SetCookies::new(cookies),
            None => SetCookies::default(),
        };
        let mut counters: Vec<Counter> = Vec::new();
        match reason {
            TeardownReason::NoRefreshToken => {
                counters.push(self.record_refresh(RefreshResult::NoRefreshToken));
            },
            TeardownReason::RefreshRejected => {
                counters.push(self.record_refresh(RefreshResult::Failed));
            },
            _ => {},
        }
        counters.push(self.record_teardown(reason));
        proof {
            assert(counter_views(counters@) =~= delete_counters(reason, self.instance()));
        }
        (LoadedSession::Cleared { reason, clears }, counters)
    }
}

// -- Laws of the refresh --

/// The answers to the exchanges of one refresh, each with the time it came in.
pub struct ExchangeAnswer {
    /// What the authorization server answered.
    pub outcome: ExchangeOutcome,
    /// When the answer was in.
    pub at: Timestamp,
}

/// Where a refresh ends, given the answers to its exchanges from attempt
/// `attempt` on.
pub open spec fn refresh_end(
    attempt: u32,
    answers: Seq<ExchangeAnswer>,
    token_expiry: Timestamp,
) -> Option<LoadStep>
    decreases answers.len(),
{
    if answers.len() == 0 {
        None
    } else {
        match exchanged_step(attempt, answers[0].outcome, token_expiry, answers[0].at) {
            LoadStep::Retry { attempt: made } => refresh_end(
                next_attempt(made),
                answers.skip(1),
                token_expiry,
            ),
            end => Some(end),
        }
    }
}

/// A transient failure of the authorization server never tears a session down:
/// when every answer is a transient failure, the refresh ends after the last
/// attempt with the session retained, and served while its token is valid.
pub proof fn law_transient_failure_never_tears_down(
    answers: Seq<ExchangeAnswer>,
    token_expiry: Timestamp,
)
    requires
        answers.len() == REFRESH_MAX_ATTEMPTS,
        forall|i: int|
            0 <= i < answers.len() ==> (#[trigger] answers[i]).outcome == (
            ExchangeOutcome::Failed { retryable: true }),
    ensures
        refresh_end(1, answers, token_expiry) == Some(
            if answers.last().at.nanos < token_expiry.nanos {
                LoadStep::Serve
            } else {
                LoadStep::RefreshUnavailable
            },
        ),
{
    reveal_with_fuel(refresh_end, 4);
    assert(answers[0].outcome == (ExchangeOutcome::Failed { retryable: true }));
    assert(answers[1].outcome == (ExchangeOutcome::Failed { retryable: true }));
    assert(answers[2].outcome == (ExchangeOutcome::Failed { retryable: true }));
    assert(answers.skip(1)[0] == answers[1]);
    assert(answers.skip(1).skip(1)[0] == answers[2]);
}

/// A refresh tears a session down only on a conclusive rejection, and then for
/// that reason.
pub proof fn law_only_rejection_tears_down(
    attempt: u32,
    answers: Seq<ExchangeAnswer>,
    token_expiry: Timestamp,
    reason: TeardownReason,
)
    requires
        refresh_end(attempt, answers, token_expiry) == Some(LoadStep::Delete(reason)),
    ensures
        reason == TeardownReason::RefreshRejected,
        exists|i: int|
            0 <= i < answers.len() && (#[trigger] answers[i]).outcome == (ExchangeOutcome::Failed {
                retryable: false,
            }),
    decreases answers.len(),
{
    if answers[0].outcome != (ExchangeOutcome::Failed { retryable: false }) {
        let rest = answers.skip(1);
        law_only_rejection_tears_down((attempt + 1) as u32, rest, token_expiry, reason);
        let i = choose|i: int|
            0 <= i < rest.len() && (#[trigger] rest[i]).outcome == (ExchangeOutcome::Failed {
                retryable: false,
            });
        assert(answers[i + 1] == rest[i]);
    }
}

/// A session within its lifetime, not idle and with a token that is not about
/// to expire is served without any outside work on its tokens.
pub proof fn law_healthy_session_is_served(
    lifetime: SessionLifetime,
    margin: Duration,
    counts_as_activity: bool,
    verdict: LivenessVerdict,
    state: SessionState,
    now: Timestamp,
)
    requires
        teardown_for(lifetime, state, now) is None,
        !(verdict is Expired),
        now.nanos + margin.nanos < state.token_expiry.nanos,
    ensures
        loaded_step(lifetime, counts_as_activity, Some(state), now) is CheckLiveness,
        judged_step(margin, verdict, state, now) is Serve,
{
}

/// A session past its deadline, or dated too far in the future, is torn down
/// before anything else is asked of it: no verdict, token or refresh can have
/// it served.
pub proof fn law_dead_session_is_never_served(
    lifetime: SessionLifetime,
    counts_as_activity: bool,
    state: SessionState,
    now: Timestamp,
)
    requires
        too_far_future(state.created_at, now) || (effective_deadline(
            lifetime,
            state,
        ) matches Some(deadline) && now.nanos > deadline.nanos),
    ensures
        loaded_step(lifetime, counts_as_activity, Some(state), now) is Delete,
{
}

/// A token just issued without an expiry of its own is not due for a refresh,
/// under any configuration that was built: the refresh margin is smaller than
/// the lifetime assumed.
pub proof fn law_fresh_token_is_not_due(config: LoginConfig, state: SessionState, now: Timestamp)
    requires
        config.is_consistent(),
        now.nanos + config.default_token_lifetime.nanos <= i128::MAX,
        state.token_expiry == now.later(config.default_token_lifetime),
    ensures
        !refresh_due(config.token_refresh_margin, state, now),
{
}

/// Under a bounded lifetime a session ends that long after its login, whatever
/// it was refreshed with and however active it is.
pub proof fn law_bounded_session_ends(
    cap: Duration,
    state: SessionState,
    token_response: TokenResponse,
    default_lifetime: Duration,
    refreshed_at: Timestamp,
    now: Timestamp,
)
    requires
        now.nanos > state.created_at.later(cap).nanos,
    ensures
        teardown_for(SessionLifetime::Bounded(cap), state, now) is Some,
        teardown_for(
            SessionLifetime::Bounded(cap),
            state.after_refresh(token_response, default_lifetime, refreshed_at),
            now,
        ) is Some,
{
}

/// A session retained after a transient failure is not stuck: whenever it is
/// presented again within its lifetime, its refresh begins anew.
pub proof fn law_retained_session_retries(
    margin: Duration,
    verdict: LivenessVerdict,
    state: SessionState,
    now: Timestamp,
    again: Timestamp,
)
    requires
        judged_step(margin, verdict, state, now) is Exchange,
        now.nanos <= again.nanos,
    ensures
        judged_step(margin, verdict, state, again) == (LoadStep::Exchange { attempt: 1 }),
{
}

/// A record past its storage deadline may be deleted: either the session would
/// be torn down, or nobody used it for the idle timeout since the token of its
/// last write expired.
pub proof fn law_reaping_is_safe(
    lifetime: SessionLifetime,
    state: SessionState,
    written: Timestamp,
    idle_timeout: Duration,
    now: Timestamp,
)
    requires
        now.nanos > state.deadline_at(written, idle_timeout).nanos,
    ensures
        teardown_for(lifetime, state, now) is Some || now.nanos > activity_horizon(
            state.token_expiry,
            written,
            idle_timeout,
        ).nanos,
{
}

// -- Laws of a load --

/// A token at or near its expiry is exchanged: for every session with a
/// refresh token, whatever else it holds, and every verdict but expiry, the
/// first exchange follows once `now` is within the refresh margin of the token
/// expiry. Without a refresh token the session is torn down for that.
pub proof fn law_due_token_is_exchanged<SD>(
    engine: LoginEngine<SD>,
    verdict: LivenessVerdict,
    state: SessionState,
    now: Timestamp,
    step: LoadStep,
)
    requires
        call_ensures(LoginEngine::<SD>::load_judged, (&engine, verdict, &state, now), step),
        !(verdict is Expired),
        now.nanos + engine.config.token_refresh_margin.nanos >= state.token_expiry.nanos,
    ensures
        state.refresh_token is Some ==> step == (LoadStep::Exchange { attempt: 1 }),
        state.refresh_token is None ==> step == LoadStep::Delete(TeardownReason::NoRefreshToken),
{
}

/// A session is served without a refresh exactly when it is not idle and its
/// token is good for longer than the refresh margin; an idle one is torn down
/// whatever its tokens.
pub proof fn law_only_good_tokens_are_served<SD>(
    engine: LoginEngine<SD>,
    verdict: LivenessVerdict,
    state: SessionState,
    now: Timestamp,
    step: LoadStep,
)
    requires
        call_ensures(LoginEngine::<SD>::load_judged, (&engine, verdict, &state, now), step),
    ensures
        step is Serve <==> !(verdict is Expired) && now.nanos
            + engine.config.token_refresh_margin.nanos < state.token_expiry.nanos,
        step == LoadStep::Delete(TeardownReason::IdleTimeout) <==> verdict is Expired,
{
}

/// What follows the liveness check depends on the token expiry and on whether
/// there is a refresh token, and on nothing else about the session.
pub proof fn law_only_the_tokens_decide<SD>(
    engine: LoginEngine<SD>,
    verdict: LivenessVerdict,
    a: SessionState,
    b: SessionState,
    now: Timestamp,
    step_a: LoadStep,
    step_b: LoadStep,
)
    requires
        call_ensures(LoginEngine::<SD>::load_judged, (&engine, verdict, &a, now), step_a),
        call_ensures(LoginEngine::<SD>::load_judged, (&engine, verdict, &b, now), step_b),
        a.token_expiry == b.token_expiry,
        a.refresh_token is Some <==> b.refresh_token is Some,
    ensures
        step_a == step_b,
{
}

/// A session goes on to its liveness check exactly while it is alive: begun at
/// most a minute ahead of the clock, not past the deadline frozen at login, and
/// not older than the cap in force. The check is told whether the request is
/// activity, and the sooner of the two deadlines.
pub proof fn law_live_session_goes_on<SD>(
    engine: LoginEngine<SD>,
    state: SessionState,
    headers: HeaderMap,
    now: Timestamp,
    active: bool,
    step: LoadStep,
)
    requires
        call_ensures(LoginEngine::<SD>::load_session, (&engine, Some(&state), &headers, now), step),
        call_ensures(
            crate::config::ActivityPolicy::counts_as_activity,
            (engine.config.activity_policy, &headers),
            active,
        ),
        state.created_at.nanos - now.nanos <= 60_000_000_000,
        state.expire_at matches Some(end) ==> now.nanos <= end.nanos,
        engine.config.session_lifetime matches SessionLifetime::Bounded(cap) ==> now.nanos
            - state.created_at.nanos <= cap.nanos,
    ensures
        step is CheckLiveness,
        step->record_activity == active,
        engine.config.session_lifetime is DelegatedToAuthorizationServer ==> step->expire_at
            == state.expire_at,
        engine.config.session_lifetime matches SessionLifetime::Bounded(cap) ==> ({
            let capped = if state.created_at.nanos + cap.nanos <= i128::MAX {
                state.created_at.nanos + cap.nanos
            } else {
                i128::MAX as int
            };
            &&& step->expire_at is Some
            &&& step->expire_at->0.nanos <= capped
            &&& state.expire_at matches Some(end) ==> step->expire_at->0.nanos <= end.nanos
            &&& step->expire_at->0.nanos == capped || step->expire_at == state.expire_at
        }),
{
}

/// A session begun more than a minute ahead of the clock is torn down for its
/// clock; any other past the deadline frozen at login, or older than the cap
/// in force, for its age. Where there is no session nothing is done.
pub proof fn law_dead_session_is_torn_down<SD>(
    engine: LoginEngine<SD>,
    state: SessionState,
    headers: HeaderMap,
    now: Timestamp,
    step: LoadStep,
    none: LoadStep,
)
    requires
        call_ensures(LoginEngine::<SD>::load_session, (&engine, Some(&state), &headers, now), step),
        call_ensures(LoginEngine::<SD>::load_session, (&engine, None, &headers, now), none),
    ensures
        none is Missing,
        state.created_at.nanos - now.nanos > 60_000_000_000 ==> step == LoadStep::Delete(
            TeardownReason::ClockSkew,
        ),
        state.created_at.nanos - now.nanos <= 60_000_000_000 && state.expire_at is Some && now.nanos
            > state.expire_at->0.nanos ==> step == LoadStep::Delete(TeardownReason::MaxLifetime),
        state.created_at.nanos - now.nanos <= 60_000_000_000
            && engine.config.session_lifetime is Bounded && now.nanos - state.created_at.nanos
            > engine.config.session_lifetime->0.nanos ==> step == LoadStep::Delete(
            TeardownReason::MaxLifetime,
        ),
{
}

/// New tokens are persisted, whichever attempt brought them; a rejection ends
/// the session, whichever attempt met it; and a passing failure does neither:
/// it is tried again up to the third attempt, and then leaves the session to be
/// served exactly while its token is valid.
pub proof fn law_answers_decide_the_refresh<SD>(
    engine: LoginEngine<SD>,
    attempt: u32,
    outcome: ExchangeOutcome,
    token_expiry: Timestamp,
    now: Timestamp,
    r: (LoadStep, Vec<Counter>),
)
    requires
        call_ensures(
            LoginEngine::<SD>::refresh_or_clear,
            (&engine, attempt, outcome, token_expiry, now),
            r,
        ),
    ensures
        r.0 is Persist <==> outcome is Refreshed,
        r.0 is Delete <==> outcome == (ExchangeOutcome::Failed { retryable: false }),
        r.0 is Delete ==> r.0 == LoadStep::Delete(TeardownReason::RefreshRejected),
        outcome == (ExchangeOutcome::Failed { retryable: true }) ==> {
            &&& attempt < 3 ==> r.0 == (LoadStep::Retry { attempt })
            &&& attempt >= 3 && now.nanos < token_expiry.nanos ==> r.0 is Serve
            &&& attempt >= 3 && now.nanos >= token_expiry.nanos ==> r.0 is RefreshUnavailable
        },
{
}

/// A retried attempt is followed by the next one, after a wait that doubles.
pub proof fn law_retry_makes_the_next_attempt<SD>(
    engine: LoginEngine<SD>,
    attempt: u32,
    r: (Duration, LoadStep),
)
    requires
        1 <= attempt < 3,
        call_ensures(LoginEngine::<SD>::refresh_with_retry, (&engine, attempt), r),
    ensures
        r.1 is Exchange,
        r.1->Exchange_attempt == attempt + 1,
        attempt == 1 ==> 100_000_000 <= r.0.nanos < 150_000_000,
        attempt == 2 ==> 200_000_000 <= r.0.nanos < 250_000_000,
{
    vstd::arithmetic::power2::lemma2_to64();
}

/// A refresh survives passing failures: after up to two of them, an answer with
/// new tokens is persisted, and a rejection ends the session.
pub proof fn law_refresh_survives_passing_failures(
    answers: Seq<ExchangeAnswer>,
    failures: int,
    token_expiry: Timestamp,
)
    requires
        0 <= failures <= 2,
        failures < answers.len(),
        forall|i: int|
            0 <= i < failures ==> (#[trigger] answers[i]).outcome == (ExchangeOutcome::Failed {
                retryable: true,
            }),
    ensures
        answers[failures].outcome is Refreshed ==> refresh_end(1, answers, token_expiry) == Some(
            LoadStep::Persist,
        ),
        answers[failures].outcome == (ExchangeOutcome::Failed { retryable: false })
            ==> refresh_end(1, answers, token_expiry) == Some(
            LoadStep::Delete(TeardownReason::RefreshRejected),
        ),
{
    reveal_with_fuel(refresh_end, 4);
    if failures > 0 {
        assert(answers[0].outcome == (ExchangeOutcome::Failed { retryable: true }));
        assert(answers.skip(1)[0] == answers[1]);
    }
    if failures > 1 {
        assert(answers[1].outcome == (ExchangeOutcome::Failed { retryable: true }));
        assert(answers.skip(1).skip(1)[0] == answers[2]);
    }
}

/// Whether a counter has this name and this first label, and no other label but
/// the engine's instance name.
pub open spec fn counts_once(
    c: CounterView,
    name: Seq<char>,
    label: (Seq<char>, Seq<char>),
    instance: Option<Seq<char>>,
) -> bool {
    &&& c.name == name
    &&& c.labels.len() > 0 && c.labels[0] == label
    &&& instance is None ==> c.labels.len() == 1
    &&& instance matches Some(n) ==> c.labels.len() == 2 && c.labels[1] == ("name"@, n)
}

/// The counters of an exchange tell how it ended: one counter where the refresh
/// is over and the session lives, none where it goes on or a teardown follows.
pub proof fn law_exchange_is_counted<SD>(
    engine: LoginEngine<SD>,
    attempt: u32,
    outcome: ExchangeOutcome,
    token_expiry: Timestamp,
    now: Timestamp,
    r: (LoadStep, Vec<Counter>),
)
    requires
        call_ensures(
            LoginEngine::<SD>::refresh_or_clear,
            (&engine, attempt, outcome, token_expiry, now),
            r,
        ),
    ensures
        r.1@.len() == (if r.0 is Persist || r.0 is Serve || r.0 is RefreshUnavailable {
            1int
        } else {
            0int
        }),
        r.1@.len() == 1 ==> counts_once(
            r.1@[0]@,
            "huskarl.session.refresh"@,
            (
                "outcome"@,
                if outcome is Refreshed {
                    "ok"@
                } else if now.nanos < token_expiry.nanos {
                    "failed_retained"@
                } else {
                    "failed_unavailable"@
                },
            ),
            engine.instance(),
        ),
{
    assert(counter_views(r.1@).len() == r.1@.len());
    if r.1@.len() == 1 {
        assert(counter_views(r.1@)[0] == r.1@[0]@);
    }
}

/// A teardown hands out exactly the cookies of its delete and says why it
/// happened; its last counter is the teardown's, with the reason, preceded by a
/// refresh counter where the tokens were the reason.
pub proof fn law_teardown_is_reported<SD, S>(
    engine: LoginEngine<SD>,
    reason: TeardownReason,
    deleted: Option<Vec<String>>,
    r: (LoadedSession<S>, Vec<Counter>),
)
    requires
        call_ensures(LoginEngine::<SD>::delete_best_effort::<S>, (&engine, reason, deleted), r),
    ensures
        r.0 is Cleared,
        r.0->reason == reason,
        deleted is None ==> r.0->clears@.len() == 0,
        deleted matches Some(cookies) ==> {
            &&& r.0->clears@.len() == cookies@.len()
            &&& forall|i: int| 0 <= i < cookies@.len() ==> r.0->clears@[i] == #[trigger] cookies@[i]@
        },
        r.1@.len() == (if reason is NoRefreshToken || reason is RefreshRejected {
            2int
        } else {
            1int
        }),
        counts_once(
            r.1@[r.1@.len() - 1]@,
            "huskarl.session.teardown"@,
            (
                "reason"@,
                match reason {
                    TeardownReason::MaxLifetime => "max_lifetime"@,
                    TeardownReason::IdleTimeout => "idle_timeout"@,
                    TeardownReason::ClockSkew => "clock_skew"@,
                    TeardownReason::RefreshRejected => "refresh_rejected"@,
                    TeardownReason::NoRefreshToken => "no_refresh_token"@,
                },
            ),
            engine.instance(),
        ),
        r.1@.len() == 2 ==> counts_once(
            r.1@[0]@,
            "huskarl.session.refresh"@,
            (
                "outcome"@,
                if reason is NoRefreshToken {
                    "no_refresh_token"@
                } else {
                    "failed"@
                },
            ),
            engine.instance(),
        ),
{
    assert(counter_views(r.1@).len() == r.1@.len());
    assert(counter_views(r.1@)[0] == r.1@[0]@);
    assert(counter_views(r.1@).last() == r.1@[r.1@.len() - 1]@);
    if let Some(cookies) = deleted {
        assert forall|i: int| 0 <= i < cookies@.len() implies r.0->clears@[i]
            == #[trigger] cookies@[i]@ by {
            assert(texts(cookies@)[i] == cookies@[i]@);
        }
    }
}

/// A refreshed session is served whether or not it could be saved: with its
/// cookies where it could, and with the very refresh still owed where not. A
/// session served as it is owes nothing.
pub proof fn law_refreshed_session_is_served<S>(
    session: S,
    token_response: TokenResponse,
    saved: Result<Vec<String>, SessionError>,
    r: LoadedSession<S>,
    as_is: LoadedSession<S>,
    seen: Option<&S>,
)
    requires
        call_ensures(LoadedSession::<S>::persisted, (session, token_response, saved), r),
        call_ensures(LoadedSession::<S>::serve, (session,), as_is),
        call_ensures(LoadedSession::<S>::session, (&r,), seen),
    ensures
        seen is Some && *seen->0 == session,
        r is Active <==> saved is Ok,
        r is ActivePending <==> saved is Err,
        saved matches Ok(cookies) ==> {
            &&& r->Active_set_cookies@.len() == cookies@.len()
            &&& forall|i: int|
                0 <= i < cookies@.len() ==> r->Active_set_cookies@[i] == #[trigger] cookies@[i]@
        },
        saved is Err ==> r->pending.owed() == token_response,
        as_is is Active && as_is->Active_session == session && as_is->Active_set_cookies@.len()
            == 0,
{
    if let Ok(cookies) = saved {
        assert forall|i: int| 0 <= i < cookies@.len() implies r->Active_set_cookies@[i]
            == #[trigger] cookies@[i]@ by {
            assert(texts(cookies@)[i] == cookies@[i]@);
        }
    }
}

/// An owed save commits the very session and refresh it was made of, and serves
/// that session until then.
pub proof fn law_owed_save_commits_what_is_owed<S>(
    session: S,
    token_response: TokenResponse,
    pending: PendingPersist<S>,
    shown: &S,
    shared: Arc<S>,
    owed: (Arc<S>, TokenResponse),
)
    requires
        call_ensures(PendingPersist::<S>::new, (session, token_response), pending),
        call_ensures(PendingPersist::<S>::session, (&pending,), shown),
        call_ensures(PendingPersist::<S>::session_arc, (&pending,), shared),
        call_ensures(PendingPersist::<S>::commit, (pending,), owed),
    ensures
        *shown == session,
        *shared == session,
        *owed.0 == session,
        owed.1 == token_response,
{
}

/// A session dies for exactly one of two reasons: it began more than a minute
/// ahead of the clock, or else it is past the deadline frozen at login or older
/// than the cap in force. Its deadline is the sooner of the two.
pub proof fn law_absolute_checks<SD>(
    engine: LoginEngine<SD>,
    state: SessionState,
    now: Timestamp,
    reason: Option<TeardownReason>,
    deadline: Option<Timestamp>,
    far: bool,
)
    requires
        call_ensures(LoginEngine::<SD>::session_teardown_reason, (&engine, &state, now), reason),
        call_ensures(LoginEngine::<SD>::session_deadline, (&engine, &state), deadline),
        call_ensures(is_too_far_future, (state.created_at, now), far),
    ensures
        far <==> state.created_at.nanos - now.nanos > 60_000_000_000,
        reason == Some(TeardownReason::ClockSkew) <==> far,
        reason == Some(TeardownReason::MaxLifetime) <==> !far && ((state.expire_at is Some
            && now.nanos > state.expire_at->0.nanos) || (engine.config.session_lifetime is Bounded
            && now.nanos - state.created_at.nanos > engine.config.session_lifetime->0.nanos)),
        reason is None || reason == Some(TeardownReason::ClockSkew) || reason == Some(
            TeardownReason::MaxLifetime,
        ),
        engine.config.session_lifetime is DelegatedToAuthorizationServer ==> deadline
            == state.expire_at,
        engine.config.session_lifetime matches SessionLifetime::Bounded(cap) ==> ({
            let capped = if state.created_at.nanos + cap.nanos <= i128::MAX {
                state.created_at.nanos + cap.nanos
            } else {
                i128::MAX as int
            };
            &&& deadline is Some && deadline->0.nanos <= capped
            &&& state.expire_at is Some ==> deadline->0.nanos <= state.expire_at->0.nanos
            &&& deadline->0.nanos == capped || deadline == state.expire_at
        }),
{
}

} // verus!
