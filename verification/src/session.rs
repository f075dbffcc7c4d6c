//! Session errors, and what the engine asks of a session store.

use vstd::prelude::*;

use crate::cookie::SealerView;
use crate::text::{opt_str, opt_text};
use crate::time::Duration;

verus! {

/// Classification of a [`SessionError`]. Match with a wildcard arm.
#[non_exhaustive]
#[derive(Debug, Clone, Copy, PartialEq, Eq, Structural)]
pub enum SessionErrorKind {
    /// The backing store is unreachable or failed transiently. The only
    /// [retryable](SessionError::is_retryable) kind.
    Unavailable,
    /// A compare-and-swap retry budget was exhausted under concurrent
    /// rewrites.
    Conflict,
    /// The session was deleted or expired between load and update.
    Gone,
    /// A cookie seal/unseal or other cryptographic operation failed.
    Crypto,
    /// A value could not be encoded into its cookie or header representation.
    Encoding,
    /// The store violated its contract, or a session outgrew its budget.
    Store,
}

impl SessionErrorKind {
    /// The text that describes this kind.
    pub open spec fn description(self) -> Seq<char> {
        match self {
            SessionErrorKind::Unavailable => "session store unavailable"@,
            SessionErrorKind::Conflict => "session update conflict"@,
            SessionErrorKind::Gone => "session no longer exists"@,
            SessionErrorKind::Crypto => "session cryptographic operation failed"@,
            SessionErrorKind::Encoding => "session could not be encoded for cookies or headers"@,
            SessionErrorKind::Store => "session store failure"@,
        }
    }

    /// The text that describes this kind.
    pub fn message(&self) -> (s: &'static str)
        ensures
            s@ == self.description(),
    {
        match self {
            SessionErrorKind::Unavailable => "session store unavailable",
            SessionErrorKind::Conflict => "session update conflict",
            SessionErrorKind::Gone => "session no longer exists",
            SessionErrorKind::Crypto => "session cryptographic operation failed",
            SessionErrorKind::Encoding => "session could not be encoded for cookies or headers",
            SessionErrorKind::Store => "session store failure",
        }
    }
}

/// A request-time session-store failure; handle via [`kind`](Self::kind) and
/// [`is_retryable`](Self::is_retryable).
#[derive(Debug)]
pub struct SessionError {
    kind: SessionErrorKind,
    context: Option<String>,
    source: Option<String>,
}

/// What a [`SessionError`] holds: its kind, the context attached to it, and
/// what its cause says.
#[verifier::ext_equal]
pub struct SessionErrorView {
    /// The classification.
    pub kind: SessionErrorKind,
    /// The context, outermost first.
    pub context: Option<Seq<char>>,
    /// The message of the cause.
    pub source: Option<Seq<char>>,
}

impl View for SessionError {
    type V = SessionErrorView;

    closed spec fn view(&self) -> SessionErrorView {
        SessionErrorView {
            kind: self.kind,
            context: opt_text(self.context),
            source: opt_text(self.source),
        }
    }
}

/// An error of the given kind without context, caused by what `source` says.
pub open spec fn error_caused_by(kind: SessionErrorKind, source: Seq<char>) -> SessionErrorView {
    SessionErrorView { kind, context: None, source: Some(source) }
}

impl SessionError {
    /// Creates an error of the given kind caused by `source`, the message of
    /// the underlying failure.
    pub fn new(kind: SessionErrorKind, source: &str) -> (e: Self)
        ensures
            e@ == error_caused_by(kind, source@),
    {
        SessionError { kind, context: None, source: Some(source.to_owned()) }
    }

    /// Carries a failure of the authorization server or of key material as a
    /// session error, preserving its retryability.
    pub fn from_outside(retryable: bool, source: &str) -> (e: Self)
        ensures
            e@ == error_caused_by(
                if retryable {
                    SessionErrorKind::Unavailable
                } else {
                    SessionErrorKind::Store
                },
                source@,
            ),
    {
        if retryable {
            SessionError::new(SessionErrorKind::Unavailable, source)
        } else {
            SessionError::new(SessionErrorKind::Store, source)
        }
    }

    /// The classification of this error.
    #[must_use]
    pub fn kind(&self) -> (k: SessionErrorKind)
        ensures
            k == self@.kind,
    {
        self.kind
    }

    /// Whether the failure is transient and may succeed on retry.
    #[must_use]
    pub fn is_retryable(&self) -> (r: bool)
        ensures
            r == (self@.kind is Unavailable),
    {
        matches!(self.kind, SessionErrorKind::Unavailable)
    }

    /// What the cause of this error says, if there is one.
    pub fn source(&self) -> (s: Option<&str>)
        ensures
            opt_str(s) == self@.source,
    {
        match &self.source {
            Some(s) => Some(s.as_str()),
            None => None,
        }
    }

    /// Attaches human-readable context, shown as a prefix of the message
    /// (layers outermost first).
    #[must_use]
    pub fn with_context(self, context: &str) -> (e: Self)
        ensures
            e@ == (SessionErrorView {
                context: Some(
                    match self@.context {
                        Some(existing) => context@ + ": "@ + existing,
                        None => context@,
                    },
                ),
                ..self@
            }),
    {
        let mut text = context.to_owned();
        if let Some(existing) = &self.context {
            text.append(": ");
            text.append(existing.as_str());
        }
        SessionError { kind: self.kind, context: Some(text), source: self.source }
    }

    /// The message of this error: its context, then what its kind means.
    pub fn message(&self) -> (s: String)
        ensures
            s@ == match self@.context {
                Some(context) => context + ": "@ + self@.kind.description(),
                None => self@.kind.description(),
            },
    {
        match &self.context {
            Some(context) => {
                let mut s = context.clone();
                s.append(": ");
                s.append(self.kind.message());
                s
            },
            None => self.kind.message().to_owned(),
        }
    }
}

impl From<SessionErrorKind> for SessionError {
    fn from(kind: SessionErrorKind) -> (e: Self)
        ensures
            e@ == (SessionErrorView { kind, context: None, source: None }),
    {
        SessionError { kind, context: None, source: None }
    }
}

impl vstd::std_specs::convert::FromSpecImpl<SessionErrorKind> for SessionError {
    open spec fn obeys_from_spec() -> bool {
        true
    }

    closed spec fn from_spec(kind: SessionErrorKind) -> SessionError {
        SessionError { kind, context: None, source: None }
    }
}

/// Marks the session stores this crate provides; not for implementing
/// elsewhere.
pub trait Sealed {

}

/// The cookie settings of a store stamped with a session policy: `secure`
/// fixes the name prefix and the `Secure` attribute, and the cap bounds the
/// cookie lifetime.
pub open spec fn stamped(
    sealer: SealerView,
    secure: bool,
    max_lifetime: Option<Duration>,
    metrics_name: Option<Seq<char>>,
) -> SealerView {
    SealerView {
        secure,
        max_age: match max_lifetime {
            Some(cap) => sealer.max_age.shorter(cap),
            None => sealer.max_age,
        },
        metrics_name,
        ..sealer
    }
}

/// What the engine asks of a session store. Sealed: implemented only by
/// [`CookieSessionStore`](crate::cookie_session::CookieSessionStore) and
/// [`StoreBackedSessionStore`](crate::store_session::StoreBackedSessionStore).
pub trait SessionDriver: Sealed + Sized {
    /// How the store's cookies are named and sealed.
    spec fn cookie_settings(&self) -> SealerView;

    /// The lifetime cap frozen into new sessions.
    spec fn frozen_cap(&self) -> Option<Duration>;

    /// Whether this store is `before` with a session policy stamped onto it:
    /// nothing else about it differs.
    spec fn is_stamped_from(
        &self,
        before: &Self,
        secure: bool,
        max_lifetime: Option<Duration>,
        metrics_name: Option<Seq<char>>,
    ) -> bool;

    /// Stamps the engine-derived session policy onto this driver. Called once
    /// at engine construction, so the values cannot drift from the config.
    fn apply_session_policy(
        &mut self,
        secure: bool,
        max_lifetime: Option<Duration>,
        metrics_name: Option<&str>,
    )
        ensures
            final(self).cookie_settings() == stamped(
                old(self).cookie_settings(),
                secure,
                max_lifetime,
                opt_str(metrics_name),
            ),
            final(self).frozen_cap() == max_lifetime,
            final(self).is_stamped_from(
                old(self),
                secure,
                max_lifetime,
                opt_str(metrics_name),
            ),
    ;
}

/// A failure from outside keeps whether it may pass: it is retryable as a
/// session error exactly when it was before, and its message is kept.
pub proof fn law_outside_failures_stay_retryable(
    retryable: bool,
    message: &str,
    e: SessionError,
    r: bool,
    context: &str,
    wrapped: SessionError,
)
    requires
        call_ensures(SessionError::from_outside, (retryable, message), e),
        call_ensures(SessionError::is_retryable, (&e,), r),
        call_ensures(SessionError::with_context, (e, context), wrapped),
    ensures
        r == retryable,
        e@.source == Some(message@),
        e@.context is None,
        wrapped@.kind == e@.kind,
        wrapped@.source == e@.source,
        wrapped@.context == Some(context@),
{
}

/// Of all kinds of session error only an unavailable store is worth a retry.
pub proof fn law_only_unavailability_is_retryable(kind: SessionErrorKind, message: &str, e: SessionError, r: bool)
    requires
        call_ensures(SessionError::new, (kind, message), e),
        call_ensures(SessionError::is_retryable, (&e,), r),
    ensures
        r <==> kind is Unavailable,
        e@.kind == kind,
        e@.source == Some(message@),
{
}

/// A policy stamped onto a store changes its security, its instance name and,
/// downwards only, its cookie lifetime.
pub proof fn law_stamp_only_tightens(
    sealer: SealerView,
    secure: bool,
    max_lifetime: Option<Duration>,
    metrics_name: Option<Seq<char>>,
)
    ensures
        ({
            let after = stamped(sealer, secure, max_lifetime, metrics_name);
            &&& after.name == sealer.name
            &&& after.path == sealer.path
            &&& after.secure == secure
            &&& after.metrics_name == metrics_name
            &&& max_lifetime is None ==> after.max_age == sealer.max_age
            &&& max_lifetime matches Some(cap) ==> {
                &&& after.max_age.nanos <= cap.nanos && after.max_age.nanos <= sealer.max_age.nanos
                &&& after.max_age == cap || after.max_age == sealer.max_age
            }
        }),
{
}

/// The message of an error is its context, outermost first, and what its kind
/// means.
pub proof fn law_message_leads_with_its_context(
    e: SessionError,
    inner: &str,
    outer: &str,
    once: SessionError,
    twice: SessionError,
    plain: String,
    full: String,
)
    requires
        e@.context is None,
        call_ensures(SessionError::with_context, (e, inner), once),
        call_ensures(SessionError::with_context, (once, outer), twice),
        call_ensures(SessionError::message, (&e,), plain),
        call_ensures(SessionError::message, (&twice,), full),
    ensures
        twice@.kind == e@.kind,
        full@ == outer@ + ": "@ + inner@ + ": "@ + plain@,
{
}

} // verus!
