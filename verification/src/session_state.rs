//! Session state and lifecycle introspection: [`SessionState`] holds the
//! token/timing fields, [`Session`] exposes them to the middleware. State is
//! immutable. Liveness is tracked separately (see [`crate::liveness`]).

use vstd::prelude::*;

use crate::completed_login::CompletedLogin;
use crate::extra::ExtraFields;
use crate::time::{Duration, Timestamp};

verus! {

/// A refresh token, and the proof key it is bound to, if any.
pub struct RefreshToken {
    /// The token.
    pub token: String,
    /// Thumbprint of the key that refresh requests must be proven with.
    pub dpop_jkt: Option<String>,
}

impl Clone for RefreshToken {
    fn clone(&self) -> (r: Self)
        ensures
            r == *self,
    {
        RefreshToken { token: self.token.clone(), dpop_jkt: self.dpop_jkt.clone() }
    }
}

fn clone_refresh_token(t: &Option<RefreshToken>) -> (r: Option<RefreshToken>)
    ensures
        r == *t,
{
    match t {
        Some(t) => Some(t.clone()),
        None => None,
    }
}

/// An access token, and the proof key it is bound to, if any.
#[derive(Clone)]
pub struct AccessToken {
    /// The token.
    pub token: String,
    /// Thumbprint of the key that requests with this token must be proven
    /// with; `None` for a bearer token.
    pub dpop_jkt: Option<String>,
}

/// A token endpoint's answer to a login or a refresh.
pub struct TokenResponse {
    /// When the response was received.
    pub received_at: Timestamp,
    /// The access token.
    pub access_token: AccessToken,
    /// The raw ID token, as received; present only for OIDC flows.
    pub id_token: Option<String>,
    /// Lifetime of the access token in seconds, if the server states it.
    pub expires_in: Option<u64>,
    /// The refresh token, if the server issued one.
    pub refresh_token: Option<RefreshToken>,
    /// The scopes granted, if the server states them.
    pub scope: Option<String>,
    /// The other fields of the response.
    pub extra: ExtraFields,
}

impl TokenResponse {
    /// A response that holds nothing but a bearer token.
    pub fn bearer(access_token: &str, received_at: Timestamp) -> (t: Self)
        ensures
            t.received_at == received_at,
            t.access_token.token@ == access_token@,
            t.access_token.dpop_jkt is None,
            t.id_token is None,
            t.expires_in is None,
            t.refresh_token is None,
            t.scope is None,
            t.extra@.len() == 0,
    {
        TokenResponse {
            received_at,
            access_token: AccessToken { token: access_token.to_owned(), dpop_jkt: None },
            id_token: None,
            expires_in: None,
            refresh_token: None,
            scope: None,
            extra: ExtraFields::default(),
        }
    }

    /// How long the access token lives: what the server states, else
    /// `default_lifetime`.
    pub open spec fn lifetime(self, default_lifetime: Duration) -> Duration {
        match self.expires_in {
            Some(secs) => Duration { nanos: (secs * 1_000_000_000) as u128 },
            None => default_lifetime,
        }
    }

    /// How long the access token lives: what the server states, else
    /// `default_lifetime`.
    pub fn lifetime_or(&self, default_lifetime: Duration) -> (d: Duration)
        ensures
            d == self.lifetime(default_lifetime),
    {
        match self.expires_in {
            Some(secs) => Duration::from_secs(secs),
            None => default_lifetime,
        }
    }
}

/// Common token and timing state shared by all session types. The raw ID token
/// is not stored here; see [`Session::id_token`].
pub struct SessionState {
    /// Absolute expiry of the access token (from `expires_in`, else the default
    /// lifetime).
    pub token_expiry: Timestamp,
    /// Refresh token issued alongside the access token, if any.
    pub refresh_token: Option<RefreshToken>,
    /// Subject identifier from the ID token, for logout revocation lookup.
    pub sub: Option<String>,
    /// Session ID from the ID token, for logout revocation lookup.
    pub sid: Option<String>,
    /// When the session was created (initial login).
    pub created_at: Timestamp,
    /// Absolute session deadline, **fixed at login**: `created_at` plus the
    /// lifetime cap in force when the session was created; `None` under a
    /// delegated lifetime.
    pub expire_at: Option<Timestamp>,
}

impl Clone for SessionState {
    fn clone(&self) -> (r: Self)
        ensures
            r == *self,
    {
        SessionState {
            token_expiry: self.token_expiry,
            refresh_token: clone_refresh_token(&self.refresh_token),
            sub: self.sub.clone(),
            sid: self.sid.clone(),
            created_at: self.created_at,
            expire_at: self.expire_at,
        }
    }
}

impl SessionState {
    /// Creates a `SessionState` from a login completed at `now`.
    /// `max_lifetime` is the lifetime cap stamped onto the session store,
    /// freezing [`expire_at`](Self::expire_at) at login.
    pub fn from_completed(
        completed: &CompletedLogin,
        default_lifetime: Duration,
        max_lifetime: Option<Duration>,
        now: Timestamp,
    ) -> (s: Self)
        ensures
            s == (SessionState {
                token_expiry: now.later(completed@.token_response.lifetime(default_lifetime)),
                refresh_token: completed@.token_response.refresh_token,
                sub: completed@.subject,
                sid: match completed@.id_token_claims {
                    Some(claims) => claims.sid,
                    None => None,
                },
                created_at: now,
                expire_at: match max_lifetime {
                    Some(max) => Some(now.later(max)),
                    None => None,
                },
            }),
    {
        let token_response = completed.token_response();
        let sid = match completed.id_token_claims() {
            Some(claims) => claims.sid.clone(),
            None => None,
        };
        SessionState {
            token_expiry: now.plus(token_response.lifetime_or(default_lifetime)),
            refresh_token: clone_refresh_token(&token_response.refresh_token),
            sub: completed.subject_cloned(),
            sid,
            created_at: now,
            expire_at: match max_lifetime {
                Some(max) => Some(now.plus(max)),
                None => None,
            },
        }
    }

    /// The state after a refresh at `now`: a new token expiry, and the rotated
    /// refresh token if the response brings one. Nothing else changes.
    pub open spec fn after_refresh(
        self,
        token_response: TokenResponse,
        default_lifetime: Duration,
        now: Timestamp,
    ) -> SessionState {
        SessionState {
            token_expiry: now.later(token_response.lifetime(default_lifetime)),
            refresh_token: match token_response.refresh_token {
                Some(rotated) => Some(rotated),
                None => self.refresh_token,
            },
            ..self
        }
    }

    /// Produces a new `SessionState` with tokens updated from a refresh
    /// response received at `now`, keeping the existing refresh token unless
    /// the response rotates it.
    #[must_use]
    pub fn refreshed(
        &self,
        token_response: &TokenResponse,
        default_lifetime: Duration,
        now: Timestamp,
    ) -> (s: Self)
        ensures
            s == self.after_refresh(*token_response, default_lifetime, now),
    {
        SessionState {
            token_expiry: now.plus(token_response.lifetime_or(default_lifetime)),
            refresh_token: match &token_response.refresh_token {
                Some(rotated) => Some(rotated.clone()),
                None => clone_refresh_token(&self.refresh_token),
            },
            sub: self.sub.clone(),
            sid: self.sid.clone(),
            created_at: self.created_at,
            expire_at: self.expire_at,
        }
    }

    /// The storage deadline of a record written at `now`: the sooner of the
    /// deadline frozen at login and the activity horizon
    /// `max(now, token_expiry) + idle_timeout`.
    pub open spec fn deadline_at(self, now: Timestamp, idle_timeout: Duration) -> Timestamp {
        sooner_of(self.expire_at, activity_horizon(self.token_expiry, now, idle_timeout))
    }
}

/// How long activity at `now` keeps a session alive: idle time counts from the
/// next possible record write, a token refresh.
pub open spec fn activity_horizon(
    token_expiry: Timestamp,
    now: Timestamp,
    idle_timeout: Duration,
) -> Timestamp {
    token_expiry.latest(now).later(idle_timeout)
}

/// The sooner of a bound and an instant, where there is a bound.
pub open spec fn sooner_of(bound: Option<Timestamp>, t: Timestamp) -> Timestamp {
    match bound {
        Some(b) => b.sooner(t),
        None => t,
    }
}

/// How long activity at `now` keeps a session alive.
pub fn horizon(token_expiry: Timestamp, now: Timestamp, idle_timeout: Duration) -> (t: Timestamp)
    ensures
        t == activity_horizon(token_expiry, now, idle_timeout),
{
    token_expiry.max_with(now).plus(idle_timeout)
}

/// The sooner of a bound and an instant, where there is a bound.
pub fn earliest(bound: Option<Timestamp>, t: Timestamp) -> (r: Timestamp)
    ensures
        r == sooner_of(bound, t),
{
    match bound {
        Some(b) => b.min_with(t),
        None => t,
    }
}

/// Exposes session state so the middleware can enforce lifetime policies and
/// refresh tokens.
///
/// Implement on the session type used with the middleware; of the functions
/// that run, only [`state`](Self::state) and [`set_state`](Self::set_state) are
/// required. The specification functions say what those two mean; a type
/// outside of verified code writes them as ordinary functions, which nothing
/// calls.
pub trait Session: Sized {
    /// The embedded [`SessionState`].
    spec fn embedded(&self) -> SessionState;

    /// Whether the two sessions hold the same outside their [`SessionState`].
    spec fn agrees_outside_state(&self, other: &Self) -> bool;

    /// Whether the two sessions are stored under the same key in the same
    /// version; always, for sessions that are not kept in a store.
    spec fn same_record(&self, other: &Self) -> bool;

    /// Returns a shared reference to the embedded [`SessionState`].
    fn state(&self) -> (s: &SessionState)
        ensures
            *s == self.embedded(),
    ;

    /// Replaces the embedded [`SessionState`] with a new value.
    fn set_state(&mut self, state: SessionState)
        ensures
            final(self).embedded() == state,
            final(self).agrees_outside_state(old(self)),
            final(self).same_record(old(self)),
    ;

    /// Absolute expiry of the access token.
    fn token_expiry(&self) -> (t: Timestamp)
        ensures
            t == self.embedded().token_expiry,
    {
        self.state().token_expiry
    }

    /// The refresh token, if the authorization server issued one.
    fn refresh_token(&self) -> (t: Option<&RefreshToken>)
        ensures
            match t {
                Some(token) => self.embedded().refresh_token == Some(*token),
                None => self.embedded().refresh_token is None,
            },
    {
        self.state().refresh_token.as_ref()
    }

    /// The raw ID token, if the session stores one.
    ///
    /// Defaults to `None`: [`SessionState`] does not store the raw ID token.
    /// Override on a custom session type to supply it (e.g. for
    /// `id_token_hint`), keeping [`TokenResponse::id_token`] when the session
    /// is built.
    fn id_token(&self) -> (t: Option<&str>)
        default_ensures
            t is None,
    {
        None
    }

    /// Subject identifier from the ID token, if present.
    fn sub(&self) -> (s: Option<&str>)
        ensures
            crate::text::opt_str(s) == crate::text::opt_text(self.embedded().sub),
    {
        match &self.state().sub {
            Some(s) => Some(s.as_str()),
            None => None,
        }
    }

    /// Session ID from the ID token, if present.
    fn sid(&self) -> (s: Option<&str>)
        ensures
            crate::text::opt_str(s) == crate::text::opt_text(self.embedded().sid),
    {
        match &self.state().sid {
            Some(s) => Some(s.as_str()),
            None => None,
        }
    }

    /// When the session was created (initial login).
    fn created_at(&self) -> (t: Timestamp)
        ensures
            t == self.embedded().created_at,
    {
        self.state().created_at
    }

    /// Absolute session deadline fixed at login, if the deployment bounded it.
    /// The engine enforces it alongside the live config; storage deadlines
    /// derive from it via [`storage_deadline`](Self::storage_deadline).
    fn expire_at(&self) -> (t: Option<Timestamp>)
        ensures
            t == self.embedded().expire_at,
    {
        self.state().expire_at
    }

    /// Absolute storage deadline for a record written at `now`: the sooner of
    /// [`expire_at`](Self::expire_at) and the activity horizon
    /// `max(now, token_expiry) + idle_timeout`. External stores apply this as
    /// the record TTL on every write.
    fn storage_deadline(&self, now: Timestamp, idle_timeout: Duration) -> (t: Timestamp)
        ensures
            t == self.embedded().deadline_at(now, idle_timeout),
    {
        earliest(self.expire_at(), horizon(self.token_expiry(), now, idle_timeout))
    }

    /// Apply tokens from a refresh response received at `now` via
    /// [`SessionState::refreshed`]. Nothing else about the session changes;
    /// override it on a custom session type to update fields of its own from
    /// the response.
    fn apply_refresh(
        &mut self,
        token_response: &TokenResponse,
        default_lifetime: Duration,
        now: Timestamp,
    )
        ensures
            final(self).embedded() == old(self).embedded().after_refresh(
                *token_response,
                default_lifetime,
                now,
            ),
            final(self).same_record(old(self)),
        default_ensures
            final(self).agrees_outside_state(old(self)),
    {
        let state = self.state().refreshed(token_response, default_lifetime, now);
        self.set_state(state);
    }
}

/// A session that can be sealed into a session cookie.
pub trait CookiePayload: Session {

}

impl<T: Session> CookiePayload for T {

}

impl Session for SessionState {
    open spec fn embedded(&self) -> SessionState {
        *self
    }

    open spec fn agrees_outside_state(&self, other: &Self) -> bool {
        true
    }

    open spec fn same_record(&self, other: &Self) -> bool {
        true
    }

    fn state(&self) -> &SessionState {
        self
    }

    fn set_state(&mut self, state: SessionState) {
        *self = state;
    }
}

/// A refresh leaves everything as it was but the tokens: who the session
/// belongs to, when it began, and when it must end.
pub proof fn law_refresh_keeps_identity_and_deadline(
    state: SessionState,
    token_response: TokenResponse,
    default_lifetime: Duration,
    now: Timestamp,
)
    ensures
        state.after_refresh(token_response, default_lifetime, now).sub == state.sub,
        state.after_refresh(token_response, default_lifetime, now).sid == state.sid,
        state.after_refresh(token_response, default_lifetime, now).created_at == state.created_at,
        state.after_refresh(token_response, default_lifetime, now).expire_at == state.expire_at,
        token_response.refresh_token is None ==> state.after_refresh(
            token_response,
            default_lifetime,
            now,
        ).refresh_token == state.refresh_token,
        state.refresh_token is Some ==> state.after_refresh(
            token_response,
            default_lifetime,
            now,
        ).refresh_token is Some,
        token_response.refresh_token is Some ==> state.after_refresh(
            token_response,
            default_lifetime,
            now,
        ).refresh_token == token_response.refresh_token,
{
}

/// No record is kept past the deadline frozen at login, nor past the activity
/// horizon; and a later write never moves the deadline back.
pub proof fn law_storage_deadline_is_bounded_and_renews(
    state: SessionState,
    written: Timestamp,
    rewritten: Timestamp,
    idle_timeout: Duration,
)
    requires
        written.nanos <= rewritten.nanos,
    ensures
        state.expire_at matches Some(end) ==> state.deadline_at(written, idle_timeout).nanos
            <= end.nanos,
        state.deadline_at(written, idle_timeout).nanos <= activity_horizon(
            state.token_expiry,
            written,
            idle_timeout,
        ).nanos,
        state.deadline_at(written, idle_timeout).nanos <= state.deadline_at(
            rewritten,
            idle_timeout,
        ).nanos,
{
}

/// A refresh hands over what the response brings: a refresh token in it is the
/// session's from then on, whatever the session held before, and the access
/// token expires as long after `now` as the response says, or the default
/// where it says nothing. Without a new refresh token the old one stays, and
/// nothing else ever changes.
pub proof fn law_refresh_takes_over_the_response(
    state: SessionState,
    token_response: TokenResponse,
    default_lifetime: Duration,
    now: Timestamp,
    after: SessionState,
)
    requires
        call_ensures(
            SessionState::refreshed,
            (&state, &token_response, default_lifetime, now),
            after,
        ),
    ensures
        token_response.refresh_token is Some ==> after.refresh_token
            == token_response.refresh_token,
        token_response.refresh_token is None ==> after.refresh_token == state.refresh_token,
        token_response.expires_in matches Some(secs) ==> {
            &&& now.nanos + secs * 1_000_000_000 <= i128::MAX ==> after.token_expiry.nanos
                == now.nanos + secs * 1_000_000_000
            &&& now.nanos + secs * 1_000_000_000 > i128::MAX ==> after.token_expiry.nanos
                == i128::MAX
        },
        token_response.expires_in is None ==> {
            &&& now.nanos + default_lifetime.nanos <= i128::MAX ==> after.token_expiry.nanos
                == now.nanos + default_lifetime.nanos
            &&& now.nanos + default_lifetime.nanos > i128::MAX ==> after.token_expiry.nanos
                == i128::MAX
        },
        after.sub == state.sub,
        after.sid == state.sid,
        after.created_at == state.created_at,
        after.expire_at == state.expire_at,
        after == state.after_refresh(token_response, default_lifetime, now),
{
}

/// Of several refreshes the last decides: the expiry is the last one's, and so
/// is the refresh token where it brings one.
pub proof fn law_last_refresh_decides(
    state: SessionState,
    first: TokenResponse,
    earlier: Timestamp,
    second: TokenResponse,
    default_lifetime: Duration,
    now: Timestamp,
)
    ensures
        ({
            let once = state.after_refresh(second, default_lifetime, now);
            let twice = state.after_refresh(first, default_lifetime, earlier).after_refresh(
                second,
                default_lifetime,
                now,
            );
            &&& twice.token_expiry == once.token_expiry
            &&& second.refresh_token is Some ==> twice == once
            &&& second.refresh_token is None && first.refresh_token is Some ==> twice.refresh_token
                == first.refresh_token
            &&& second.refresh_token is None && first.refresh_token is None ==> twice == once
        }),
{
}

/// A new session is what its login says: it begins at `now`, belongs to the
/// login's subject, holds the login's refresh token, and must end the cap
/// after `now` where there is one.
pub proof fn law_new_session_is_its_login(
    completed: CompletedLogin,
    default_lifetime: Duration,
    max_lifetime: Option<Duration>,
    now: Timestamp,
    s: SessionState,
)
    requires
        call_ensures(
            SessionState::from_completed,
            (&completed, default_lifetime, max_lifetime, now),
            s,
        ),
    ensures
        s.created_at == now,
        s.sub == completed@.subject,
        s.sid == (if completed@.id_token_claims is Some {
            completed@.id_token_claims->0.sid
        } else {
            None
        }),
        s.refresh_token == completed@.token_response.refresh_token,
        completed@.token_response.expires_in matches Some(secs) ==> (now.nanos + secs
            * 1_000_000_000 <= i128::MAX ==> s.token_expiry.nanos == now.nanos + secs
            * 1_000_000_000),
        completed@.token_response.expires_in is None && now.nanos + default_lifetime.nanos
            <= i128::MAX ==> s.token_expiry.nanos == now.nanos + default_lifetime.nanos,
        s.expire_at is Some <==> max_lifetime is Some,
        max_lifetime matches Some(cap) ==> {
            &&& now.nanos + cap.nanos <= i128::MAX ==> s.expire_at->0.nanos == now.nanos
                + cap.nanos
            &&& now.nanos + cap.nanos > i128::MAX ==> s.expire_at->0.nanos == i128::MAX
        },
{
}

/// A record is kept until the sooner of the deadline frozen at login and the
/// idle timeout counted from the later of the write and the token expiry; not
/// a moment less.
pub proof fn law_storage_deadline_is_the_sooner_one(
    state: SessionState,
    written: Timestamp,
    idle_timeout: Duration,
)
    ensures
        ({
            let kept = state.deadline_at(written, idle_timeout).nanos;
            let from = if state.token_expiry.nanos > written.nanos {
                state.token_expiry.nanos
            } else {
                written.nanos
            };
            let idle_end = if from + idle_timeout.nanos <= i128::MAX {
                from + idle_timeout.nanos
            } else {
                i128::MAX as int
            };
            &&& kept == idle_end || (state.expire_at matches Some(end) && kept == end.nanos)
            &&& kept <= idle_end
            &&& state.expire_at matches Some(end) ==> kept <= end.nanos
        }),
{
}

/// What every session tells of itself is what its state holds.
pub proof fn law_session_tells_its_state<S: Session>(
    session: S,
    expiry: Timestamp,
    refresh: Option<&RefreshToken>,
    sub: Option<&str>,
    sid: Option<&str>,
    created: Timestamp,
    end: Option<Timestamp>,
    written: Timestamp,
    idle_timeout: Duration,
    kept: Timestamp,
)
    requires
        call_ensures(S::token_expiry, (&session,), expiry),
        call_ensures(S::refresh_token, (&session,), refresh),
        call_ensures(S::sub, (&session,), sub),
        call_ensures(S::sid, (&session,), sid),
        call_ensures(S::created_at, (&session,), created),
        call_ensures(S::expire_at, (&session,), end),
        call_ensures(S::storage_deadline, (&session, written, idle_timeout), kept),
    ensures
        expiry == session.embedded().token_expiry,
        refresh is Some <==> session.embedded().refresh_token is Some,
        refresh matches Some(t) ==> *t == session.embedded().refresh_token->0,
        sub is Some <==> session.embedded().sub is Some,
        sub matches Some(s) ==> s@ == session.embedded().sub->0@,
        sid is Some <==> session.embedded().sid is Some,
        sid matches Some(s) ==> s@ == session.embedded().sid->0@,
        created == session.embedded().created_at,
        end == session.embedded().expire_at,
        kept == session.embedded().deadline_at(written, idle_timeout),
{
}

/// A refresh applied to a session refreshes its state, and leaves the record it
/// is stored under alone.
pub proof fn law_applied_refresh_is_the_refresh<S: Session>(
    session: &mut S,
    token_response: TokenResponse,
    default_lifetime: Duration,
    now: Timestamp,
    after: SessionState,
)
    requires
        call_ensures(S::apply_refresh, (session, &token_response, default_lifetime, now), ()),
        call_ensures(
            SessionState::refreshed,
            (&old(session).embedded(), &token_response, default_lifetime, now),
            after,
        ),
    ensures
        final(session).embedded() == after,
        final(session).same_record(old(session)),
{
}

} // verus!
