//! Session construction from a completed login.
//!
//! An enricher turns a framework-prepared seed plus the [`CompletedLogin`]
//! into the application's session type. The seed is
//! [`SessionState`](crate::SessionState) for cookie sessions and
//! [`PersistedSessionState`](crate::PersistedSessionState) for store-backed
//! ones. The default [`NoEnrichment`] converts the seed via [`From`].

use vstd::prelude::*;

use crate::completed_login::CompletedLogin;
use crate::session::SessionError;

verus! {

/// The default enricher: the session *is* the seed, converted via [`From`].
pub struct NoEnrichment;

impl NoEnrichment {
    /// Builds the session from the seed alone.
    ///
    /// # Errors
    ///
    /// Never fails.
    pub fn build_session<Seed, S: From<Seed>>(
        &self,
        seed: Seed,
        _completed: &CompletedLogin,
    ) -> (r: Result<S, SessionError>)
        ensures
            r matches Ok(session) && call_ensures(S::from, (seed,), session),
    {
        Ok(S::from(seed))
    }
}

/// A claim-mapping closure as an enricher.
pub struct ClaimsFn<F>(pub F);

impl<F> ClaimsFn<F> {
    /// Builds the session by calling the closure.
    ///
    /// # Errors
    ///
    /// Fails as the closure does.
    pub fn build_session<Seed, S>(&self, seed: Seed, completed: &CompletedLogin) -> (r: Result<
        S,
        SessionError,
    >) where F: Fn(Seed, &CompletedLogin) -> Result<S, SessionError>
        requires
            call_requires(self.0, (seed, completed)),
        ensures
            call_ensures(self.0, (seed, completed), r),
    {
        (self.0)(seed, completed)
    }
}

} // verus!
