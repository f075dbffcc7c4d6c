//! External-store-backed session storage.
//!
//! [`StoreBackedSessionStore`] keeps an encrypted pointer cookie in the browser
//! and leaves session data to an external store (Redis, a database, etc.). The
//! store is reached by the caller: each operation here says what to ask of it
//! next, and what its answer means.

use http::HeaderMap;
use vstd::prelude::*;
use vstd::utf8::encode_utf8;

use crate::codec::{
    base64_len, base64url, base64url_bytes, decode_base64url, encode_base64url,
};
use crate::completed_login::CompletedLogin;
use crate::config::RoutePath;
use crate::cookie::{
    clear_cookie, clear_cookie_text, default_cookie_max_age, default_sealer, get_cookie,
    get_kid_cookie, kid_name, lemma_sealer_texts,
    lemma_set_cookie_is_header_text, lemma_url_safe_is_header_text, request_cookies, request_kid,
    set_cookie, set_cookie_text, unsealed, value_named, CookieName, CookieSealer, SealerView,
};
use crate::cookie_session::SavedCookies;
use crate::headers::is_header_value;
use crate::liveness::{LivenessConfig, LivenessVerdict};
use crate::metrics::{
    counter_view, emit_counter, label_texts, Counter, CounterView, DecryptResult, Label,
    LivenessFailure, SupersededDeleteResult,
};
use crate::session::{
    error_caused_by, stamped, Sealed, SessionDriver, SessionError, SessionErrorKind, SessionErrorView,
};
use crate::session_state::{Session, SessionState, TokenResponse};
use crate::text::{opt_str, opt_text, texts};
use crate::time::{Duration, Timestamp};

verus! {

/// The key of a stored session: the bytes of a UUID.
pub type SessionKey = [u8; 16];

/// Outcome of a compare-and-swap write.
#[derive(Debug, Clone, Copy, PartialEq, Eq, Structural)]
pub enum SaveOutcome {
    /// The version matched; the session was written and the version advanced.
    Committed,
    /// Another writer advanced the version first; nothing was written.
    Conflict,
}

/// An update found no session for the key.
#[derive(Debug, Clone, Copy, PartialEq, Eq, Structural)]
pub struct SessionNotFound;

impl SessionNotFound {
    /// The message of this error.
    pub fn message(&self) -> (s: &'static str)
        ensures
            s@ == "session not found"@,
    {
        "session not found"
    }
}

/// An update exhausted its retry budget under sustained concurrent rewrites.
#[derive(Debug, Clone, Copy, PartialEq, Eq, Structural)]
pub struct VersionConflict;

impl VersionConflict {
    /// The message of this error.
    pub fn message(&self) -> (s: &'static str)
        ensures
            s@ == "session update conflict: the session was modified concurrently"@,
    {
        "session update conflict: the session was modified concurrently"
    }
}

/// Framework-managed session state carried by every store-backed session, and
/// the seed a session is built from after login.
pub struct PersistedSessionState {
    /// Primary lookup key in the external store. A time-ordered `UUIDv7`.
    pub session_key: SessionKey,
    /// Shared token and timing state.
    pub state: SessionState,
    /// Optimistic-concurrency version, advanced on every write; `0` at insert.
    /// Compared by equality only.
    pub version: i32,
}

impl Clone for PersistedSessionState {
    fn clone(&self) -> (r: Self)
        ensures
            r == *self,
    {
        PersistedSessionState {
            session_key: self.session_key,
            state: self.state.clone(),
            version: self.version,
        }
    }
}

impl Session for PersistedSessionState {
    open spec fn embedded(&self) -> SessionState {
        self.state
    }

    open spec fn agrees_outside_state(&self, other: &Self) -> bool {
        self.session_key == other.session_key && self.version == other.version
    }

    open spec fn same_record(&self, other: &Self) -> bool {
        self.session_key == other.session_key && self.version == other.version
    }

    fn state(&self) -> &SessionState {
        &self.state
    }

    fn set_state(&mut self, state: SessionState) {
        self.state = state;
    }
}

/// Exposes the embedded [`PersistedSessionState`] to the framework. Implemented
/// by every store-backed session type, forwarding to its embedded field.
pub trait PersistedSession: Session {
    /// The embedded [`PersistedSessionState`].
    spec fn record(&self) -> PersistedSessionState;

    /// Whether the two sessions hold the same outside their
    /// [`PersistedSessionState`].
    spec fn agrees_outside_record(&self, other: &Self) -> bool;

    /// Sessions of the same record have its key and version.
    proof fn lemma_same_record(&self, other: &Self)
        requires
            self.same_record(other),
        ensures
            self.record().session_key == other.record().session_key,
            self.record().version == other.record().version,
    ;

    /// Returns a shared reference to the embedded [`PersistedSessionState`].
    fn persisted(&self) -> (p: &PersistedSessionState)
        ensures
            *p == self.record(),
            p.state == self.embedded(),
    ;

    /// Returns a mutable reference to the embedded [`PersistedSessionState`].
    fn persisted_mut(&mut self) -> (p: &mut PersistedSessionState)
        ensures
            *p == old(self).record(),
            p.state == old(self).embedded(),
            final(self).record() == *final(p),
            final(self).embedded() == final(p).state,
            final(self).agrees_outside_record(old(self)),
    ;
}

impl PersistedSession for PersistedSessionState {
    open spec fn record(&self) -> PersistedSessionState {
        *self
    }

    open spec fn agrees_outside_record(&self, other: &Self) -> bool {
        true
    }

    proof fn lemma_same_record(&self, other: &Self) {
    }

    fn persisted(&self) -> &PersistedSessionState {
        self
    }

    fn persisted_mut(&mut self) -> &mut PersistedSessionState {
        self
    }
}

/// Whether `key` has the version and variant bits of a version 7 UUID.
pub open spec fn is_uuid_v7(key: SessionKey) -> bool {
    key@[6] / 16 == 7 && key@[8] / 64 == 2
}

/// `Uuid::now_v7` as its 16 bytes: a fresh key with the version bits of a
/// version 7 UUID. The rest of it comes from the clock and from chance.
#[verifier::external_body]
pub(crate) fn generate_session_key() -> (key: SessionKey)
    ensures
        is_uuid_v7(key),
{
    uuid::Uuid::now_v7().into_bytes()
}

// -- Updating a stored record --

/// Attempts an optimistic update makes before giving up with
/// [`VersionConflict`].
pub const UPDATE_MAX_ATTEMPTS: u32 = 5;

/// What the external store answered to loading the record.
#[derive(Debug)]
pub enum RecordLoad {
    /// The store failed, saying this.
    Failed(String),
    /// There is no record for the key.
    Missing,
    /// The record was loaded.
    Found,
}

/// What the external store answered to a compare-and-swap.
#[derive(Debug)]
pub enum RecordSwap {
    /// The store failed, saying this.
    Failed(String),
    /// The store compared the versions.
    Compared(SaveOutcome),
}

/// What an update does after a compare-and-swap.
#[derive(Debug)]
pub enum UpdateNext {
    /// The session it wrote is the committed one: the update is done.
    Commit,
    /// Load the record again and replay the mutation.
    Reload(UpdateRun),
    /// The update failed.
    Fail(SessionError),
}

/// One run of an optimistic update: load the record, apply the mutation, and
/// commit by compare-and-swap, starting over when another writer was faster.
///
/// The mutation may run more than once against freshly-loaded state, so it must
/// be replayable: compute the new state from the session it is given, never
/// from a value captured before the load.
#[derive(Debug)]
pub struct UpdateRun {
    conflicts: u32,
}

/// The error of an update whose record is gone.
pub open spec fn gone_error() -> SessionErrorView {
    error_caused_by(SessionErrorKind::Gone, "session not found"@)
}

/// The error of an update that lost every attempt.
pub open spec fn conflict_error() -> SessionErrorView {
    error_caused_by(
        SessionErrorKind::Conflict,
        "session update conflict: the session was modified concurrently"@,
    )
}

/// The error for a failure of the external store.
pub open spec fn unavailable_error(message: Seq<char>) -> SessionErrorView {
    error_caused_by(SessionErrorKind::Unavailable, message)
}

/// Carries an external store's own error as an
/// [`Unavailable`](SessionErrorKind::Unavailable) session error.
pub fn to_session_err(message: &str) -> (e: SessionError)
    ensures
        e@ == unavailable_error(message@),
{
    SessionError::new(SessionErrorKind::Unavailable, message)
}

impl UpdateRun {
    #[verifier::type_invariant]
    spec fn within_budget(self) -> bool {
        self.conflicts < UPDATE_MAX_ATTEMPTS
    }

    /// How many attempts were lost to other writers so far.
    pub closed spec fn lost(self) -> nat {
        self.conflicts as nat
    }

    /// A run that has made no attempt yet. It begins by loading the record.
    pub fn new() -> (run: Self)
        ensures
            run.lost() == 0,
    {
        UpdateRun { conflicts: 0 }
    }

    /// The error that ends the run after a load, or `None` when the mutation
    /// can be applied.
    pub fn after_load(&self, load: RecordLoad) -> (r: Option<SessionError>)
        ensures
            match load {
                RecordLoad::Failed(message) => r matches Some(e) && e@ == unavailable_error(
                    message@,
                ),
                RecordLoad::Missing => r matches Some(e) && e@ == gone_error(),
                RecordLoad::Found => r is None,
            },
    {
        match load {
            RecordLoad::Failed(message) => Some(to_session_err(message.as_str())),
            RecordLoad::Missing => Some(
                SessionError::new(SessionErrorKind::Gone, SessionNotFound.message()),
            ),
            RecordLoad::Found => None,
        }
    }

    /// Readies a mutated session for its compare-and-swap against the version
    /// it was loaded with: a mutation that failed aborts the update with its
    /// error and nothing is written; otherwise the session carries the next
    /// version.
    pub fn stamp_version<S: PersistedSession>(
        &self,
        session: &mut S,
        expected: i32,
        mutated: Result<(), SessionError>,
    ) -> (r: Result<(), SessionError>)
        ensures
            match mutated {
                Ok(_) => r is Ok && final(session).record() == (PersistedSessionState {
                    version: next_version(expected),
                    ..old(session).record()
                }) && final(session).embedded() == old(session).embedded()
                    && final(session).agrees_outside_record(old(session)),
                Err(e) => r == Err::<(), SessionError>(e) && *final(session) == *old(session),
            },
    {
        match mutated {
            Ok(_) => {
                let record = session.persisted_mut();
                record.version = if expected == i32::MAX {
                    i32::MIN
                } else {
                    expected + 1
                };
                Ok(())
            },
            Err(e) => Err(e),
        }
    }

    /// What follows a compare-and-swap: the update is committed exactly when
    /// the versions matched; a conflict starts over until the attempts are
    /// used up.
    pub fn after_swap(self, swap: RecordSwap) -> (next: UpdateNext)
        ensures
            match swap {
                RecordSwap::Failed(message) => next matches UpdateNext::Fail(e) && e@
                    == unavailable_error(message@),
                RecordSwap::Compared(outcome) => match swap_step(self.lost(), outcome) {
                    SwapStep::Commit => next is Commit,
                    SwapStep::Reload => next matches UpdateNext::Reload(run) && run.lost()
                        == self.lost() + 1,
                    SwapStep::GiveUp => next matches UpdateNext::Fail(e) && e@ == conflict_error(),
                },
            },
    {
        proof {
            use_type_invariant(&self);
        }
        match swap {
            RecordSwap::Failed(message) => UpdateNext::Fail(to_session_err(message.as_str())),
            RecordSwap::Compared(outcome) => match outcome {
                SaveOutcome::Committed => UpdateNext::Commit,
                SaveOutcome::Conflict => if self.conflicts + 1 < UPDATE_MAX_ATTEMPTS {
                    UpdateNext::Reload(UpdateRun { conflicts: self.conflicts + 1 })
                } else {
                    UpdateNext::Fail(
                        SessionError::new(SessionErrorKind::Conflict, VersionConflict.message()),
                    )
                },
            },
        }
    }
}

/// What a compared compare-and-swap leads to.
pub enum SwapStep {
    /// The update is committed.
    Commit,
    /// The race was lost: start over.
    Reload,
    /// The race was lost once too often.
    GiveUp,
}

/// What a compared compare-and-swap leads to, after `lost` lost races.
pub open spec fn swap_step(lost: nat, outcome: SaveOutcome) -> SwapStep {
    if outcome is Committed {
        SwapStep::Commit
    } else if lost + 1 < UPDATE_MAX_ATTEMPTS {
        SwapStep::Reload
    } else {
        SwapStep::GiveUp
    }
}

/// The version after `version`; the count starts over at the end of its range.
pub open spec fn next_version(version: i32) -> i32 {
    if version == i32::MAX {
        i32::MIN
    } else {
        (version + 1) as i32
    }
}

/// How an update ends, given what each of its compare-and-swaps meets: after
/// how many lost races it commits, or the error it fails with. `None` while it
/// goes on.
pub open spec fn update_end(lost: nat, swaps: Seq<SaveOutcome>) -> Option<
    Result<nat, SessionErrorView>,
>
    decreases swaps.len(),
{
    if swaps.len() == 0 {
        None
    } else {
        match swap_step(lost, swaps[0]) {
            SwapStep::Commit => Some(Ok(lost)),
            SwapStep::Reload => update_end(lost + 1, swaps.skip(1)),
            SwapStep::GiveUp => Some(Err(conflict_error())),
        }
    }
}

/// An update survives up to four lost races and commits on the first
/// compare-and-swap that matches; five lost races in a row end it with a
/// conflict.
pub proof fn law_update_budget(swaps: Seq<SaveOutcome>, conflicts: nat)
    requires
        conflicts <= swaps.len(),
        forall|i: int| 0 <= i < conflicts ==> #[trigger] swaps[i] is Conflict,
    ensures
        conflicts < UPDATE_MAX_ATTEMPTS && conflicts < swaps.len() && swaps[conflicts as int]
            is Committed ==> update_end(0, swaps) == Some(
            Ok::<nat, SessionErrorView>(conflicts),
        ),
        conflicts >= UPDATE_MAX_ATTEMPTS ==> update_end(0, swaps) == Some(
            Err::<nat, SessionErrorView>(conflict_error()),
        ),
{
    lemma_update_from(swaps, conflicts, 0);
}

proof fn lemma_update_from(swaps: Seq<SaveOutcome>, conflicts: nat, lost: nat)
    requires
        lost < UPDATE_MAX_ATTEMPTS,
        conflicts <= swaps.len(),
        forall|i: int| 0 <= i < conflicts ==> #[trigger] swaps[i] is Conflict,
    ensures
        lost + conflicts < UPDATE_MAX_ATTEMPTS && conflicts < swaps.len()
            && swaps[conflicts as int] is Committed ==> update_end(lost, swaps) == Some(
            Ok::<nat, SessionErrorView>(lost + conflicts),
        ),
        lost + conflicts >= UPDATE_MAX_ATTEMPTS ==> update_end(lost, swaps) == Some(
            Err::<nat, SessionErrorView>(conflict_error()),
        ),
    decreases conflicts,
{
    if conflicts > 0 {
        assert(swaps[0] is Conflict);
        if lost + 1 < UPDATE_MAX_ATTEMPTS {
            let rest = swaps.skip(1);
            assert forall|i: int| 0 <= i < conflicts - 1 implies #[trigger] rest[i] is Conflict by {
                assert(rest[i] == swaps[i + 1]);
            }
            lemma_update_from(rest, (conflicts - 1) as nat, lost + 1);
            if conflicts < swaps.len() {
                assert(rest[conflicts - 1] == swaps[conflicts as int]);
            }
        }
    }
}

/// The version of a record after a number of writes, each of which advances it.
pub open spec fn version_after(version: i32, writes: nat) -> i32
    decreases writes,
{
    if writes == 0 {
        version
    } else {
        next_version(version_after(version, (writes - 1) as nat))
    }
}

proof fn lemma_version_counts(version: i32, writes: nat)
    ensures
        version_after(version, writes) == (version + 0x8000_0000 + writes) % 0x1_0000_0000
            - 0x8000_0000,
    decreases writes,
{
    if writes > 0 {
        lemma_version_counts(version, (writes - 1) as nat);
    }
}

/// An update never overwrites a change it has not seen: when the record was
/// written after the update loaded it, the versions differ and the
/// compare-and-swap meets a conflict. The versions repeat only after as many
/// writes as there are versions.
pub proof fn law_update_never_overwrites_unseen_change(loaded_version: i32, writes: nat)
    requires
        writes < 0x1_0000_0000,
    ensures
        version_after(loaded_version, writes) == loaded_version <==> writes == 0,
{
    lemma_version_counts(loaded_version, writes);
}

/// Ends the persist of a token refresh: a committed session replaces the one
/// at hand, and its pointer cookie is unchanged; on failure the refresh is
/// applied in memory, so the request can still serve the new tokens, and the
/// persist is owed.
pub fn finish_refresh<S: PersistedSession>(
    session: &mut S,
    committed: Result<S, SessionError>,
    token_response: &TokenResponse,
    default_lifetime: Duration,
    now: Timestamp,
) -> (r: Result<Vec<String>, SessionError>)
    ensures
        match committed {
            Ok(merged) => *final(session) == merged && r is Ok && r->Ok_0@.len() == 0,
            Err(e) => {
                &&& r == Err::<Vec<String>, SessionError>(e)
                &&& final(session).embedded() == old(session).embedded().after_refresh(
                    *token_response,
                    default_lifetime,
                    now,
                )
                &&& final(session).record().session_key == old(session).record().session_key
                &&& final(session).record().version == old(session).record().version
            },
        },
{
    match committed {
        Ok(merged) => {
            *session = merged;
            Ok(Vec::new())
        },
        Err(e) => {
            let ghost before = *session;
            session.apply_refresh(token_response, default_lifetime, now);
            proof {
                session.lemma_same_record(&before);
            }
            Err(e)
        },
    }
}

// -- The store --

/// A session store that keeps an encrypted pointer cookie (the session key) in
/// the browser and leaves session data to an external store.
///
/// The engine stamps on the `Secure` attribute and `__Host-` prefix, so this
/// store takes no `secure` setting.
#[derive(Debug)]
pub struct StoreBackedSessionStore {
    sealer: CookieSealer,
    liveness: Option<LivenessConfig>,
    max_lifetime: Option<Duration>,
}

/// The settings of a [`StoreBackedSessionStore`].
#[verifier::ext_equal]
pub struct StoreView {
    /// How its cookies are named and sealed.
    pub sealer: SealerView,
    /// How idle time is tracked, if it is.
    pub liveness: Option<LivenessConfig>,
    /// The lifetime cap frozen into new sessions.
    pub max_lifetime: Option<Duration>,
}

/// The session key an opened pointer cookie holds: exactly 16 bytes.
pub open spec fn pointer_key(opened: Option<Seq<u8>>) -> Option<Seq<u8>> {
    match opened {
        Some(plaintext) => if plaintext.len() == 16 {
            Some(plaintext)
        } else {
            None
        },
        None => None,
    }
}

/// What looking for the pointer cookie of a request finds.
#[verifier::ext_equal]
pub enum FoundPointer {
    /// No pointer cookie.
    Absent,
    /// A pointer cookie that is no base64url.
    Malformed,
    /// A sealed bundle, to be opened.
    Sealed(Seq<u8>),
}

impl StoreView {
    /// What looking for the pointer cookie of a request finds.
    pub open spec fn found(self, headers: HeaderMap) -> FoundPointer {
        match value_named(request_cookies(headers), self.sealer.wire_name()) {
            Some(text) => match base64url_bytes(text) {
                Some(bundle) => FoundPointer::Sealed(bundle),
                None => FoundPointer::Malformed,
            },
            None => FoundPointer::Absent,
        }
    }

    /// The associated data the session key is sealed with.
    pub open spec fn pointer_aad(self) -> Seq<u8> {
        encode_utf8(self.sealer.aad("session_ptr"@))
    }

    /// The session key a request's pointer cookie holds, given the plaintext
    /// the cipher opens a bundle to under a key hint and associated data.
    pub open spec fn points_to(
        self,
        headers: HeaderMap,
        opens: spec_fn(Option<Seq<char>>, Seq<u8>, Seq<u8>) -> Option<Seq<u8>>,
    ) -> Option<Seq<u8>> {
        match self.found(headers) {
            FoundPointer::Sealed(bundle) => {
                let kid = request_kid(headers, self.sealer.wire_name());
                pointer_key(
                    unsealed(
                        opens(kid, bundle, self.pointer_aad()),
                        opens(None, bundle, self.pointer_aad()),
                        kid is Some,
                    ),
                )
            },
            _ => None,
        }
    }

    /// The counter for a liveness store failure.
    pub open spec fn liveness_counter(self, op: LivenessFailure) -> CounterView {
        counter_view(
            "huskarl.session.liveness_failure"@,
            seq![("op"@, op.label())],
            self.sealer.metrics_name,
        )
    }

    /// The counter for the deletion of a superseded record.
    pub open spec fn superseded_counter(self, outcome: SupersededDeleteResult) -> CounterView {
        counter_view(
            "huskarl.session.superseded_delete"@,
            seq![("outcome"@, outcome.label())],
            self.sealer.metrics_name,
        )
    }
}

impl View for StoreBackedSessionStore {
    type V = StoreView;

    closed spec fn view(&self) -> StoreView {
        StoreView {
            sealer: self.sealer@,
            liveness: self.liveness,
            max_lifetime: self.max_lifetime,
        }
    }
}

/// What reading the pointer cookie has to do next.
pub enum PointerLoad {
    /// The request carries no pointer cookie: there is no session, and nothing
    /// to report.
    Absent,
    /// The pointer cookie is malformed: there is no session.
    Malformed {
        /// The key identity the kid sidecar names.
        kid: Option<String>,
    },
    /// The bundle has to be opened with the associated data, trying the key
    /// the sidecar names first.
    Unseal {
        /// The key identity the kid sidecar names.
        kid: Option<String>,
        /// The sealed session key.
        bundle: Vec<u8>,
        /// The associated data it was sealed with.
        aad: Vec<u8>,
    },
}

/// What a delete hands back.
pub struct DeletePlan {
    /// Whether the liveness entry is to be removed, best effort.
    pub clear_liveness: bool,
    /// The `Set-Cookie` values that clear the session's cookies.
    pub headers: Vec<String>,
}

/// What the liveness store answered to reading `last_active`.
#[derive(Debug, Clone, Copy, PartialEq, Eq, Structural)]
pub enum LivenessRead {
    /// The read failed.
    Failed,
    /// The entry, if there is one.
    Entry(Option<Timestamp>),
}

/// A liveness write: record activity, with this deadline for the entry.
#[derive(Debug, Clone, Copy, PartialEq, Eq, Structural)]
pub struct Touch {
    /// When the entry may be discarded; never, if `None`.
    pub expire_at: Option<Timestamp>,
}

/// The verdict on a session's liveness, and the write that follows it.
#[derive(Debug, Clone, Copy, PartialEq, Eq, Structural)]
pub struct LivenessPlan {
    /// The verdict.
    pub verdict: LivenessVerdict,
    /// The write to make, best effort.
    pub touch: Option<Touch>,
}

/// The liveness plan of a store that tracks liveness. A failed read fails
/// open: the session is active, and nothing is written for want of a timestamp
/// to throttle against.
pub open spec fn liveness_plan(
    config: LivenessConfig,
    read: LivenessRead,
    token_expiry: Timestamp,
    now: Timestamp,
    record_activity: bool,
    expire_at: Option<Timestamp>,
) -> LivenessPlan {
    match read {
        LivenessRead::Failed => LivenessPlan { verdict: LivenessVerdict::Active, touch: None },
        LivenessRead::Entry(last_active) => LivenessPlan {
            verdict: config.judges(last_active, now),
            touch: if record_activity && config.judges(last_active, now) is Active
                && config.touch_due(last_active, now) {
                Some(Touch { expire_at: config.entry_deadline(expire_at, token_expiry, now) })
            } else {
                None
            },
        },
    }
}

/// Liveness fails open: only an entry that was read, and is older than the
/// idle timeout, expires a session. An outage or a missing entry never does.
pub proof fn law_liveness_fails_open(
    config: LivenessConfig,
    read: LivenessRead,
    token_expiry: Timestamp,
    now: Timestamp,
    record_activity: bool,
    expire_at: Option<Timestamp>,
)
    ensures
        liveness_plan(config, read, token_expiry, now, record_activity, expire_at).verdict
            is Expired <==> {
            &&& read matches LivenessRead::Entry(Some(last))
            &&& config.idle_timeout matches Some(idle)
            &&& last.nanos < now.nanos
            &&& now.nanos - last.nanos > idle.nanos
        },
{
}

/// A request that does not count as activity never writes, nor does one that
/// finds the session expired.
pub proof fn law_only_activity_touches(
    config: LivenessConfig,
    read: LivenessRead,
    token_expiry: Timestamp,
    now: Timestamp,
    record_activity: bool,
    expire_at: Option<Timestamp>,
)
    ensures
        ({
            let plan = liveness_plan(config, read, token_expiry, now, record_activity, expire_at);
            plan.touch is Some ==> record_activity && plan.verdict is Active
        }),
{
}

// -- The record a new login supersedes --

/// The key of the record that a login supersedes: the one the request's
/// pointer cookie names, unless it is the new session's own.
pub open spec fn superseded_key(pointed: Option<Seq<u8>>, created: Seq<u8>) -> Option<Seq<u8>> {
    match pointed {
        Some(old) => if old == created {
            None
        } else {
            Some(old)
        },
        None => None,
    }
}

/// The record that a login supersedes, to be loaded once the new session is
/// stored under `created`: the one the request's pointer cookie names, unless
/// it is the new session's own.
pub fn superseded_record(pointed: Option<SessionKey>, created: &SessionKey) -> (old: Option<
    SessionKey,
>)
    ensures
        key_bytes(old) == superseded_key(key_bytes(pointed), created@),
{
    match pointed {
        Some(old) => {
            let mut i: usize = 0;
            while i < 16
                invariant
                    i <= 16,
                    pointed == Some(old),
                    old@.len() == 16,
                    created@.len() == 16,
                    forall|k: int| 0 <= k < i ==> old@[k] == created@[k],
                decreases 16 - i,
            {
                if old[i] != created[i] {
                    proof {
                        assert(old@[i as int] != created@[i as int]);
                    }
                    return Some(old);
                }
                i = i + 1;
            }
            proof {
                assert(old@ =~= created@);
            }
            None
        },
        None => None,
    }
}

/// The bytes of an optional session key.
pub open spec fn key_bytes(key: Option<SessionKey>) -> Option<Seq<u8>> {
    match key {
        Some(k) => Some(k@),
        None => None,
    }
}

/// What to do with the record that a login supersedes.
#[derive(Debug, Clone, Copy, PartialEq, Eq, Structural)]
pub enum SupersededStep {
    /// Delete it.
    Delete,
    /// There is nothing to delete; report the outcome.
    Report(SupersededDeleteResult),
}

/// What to do with the superseded record once the store answered: whatever is
/// found is deleted.
pub open spec fn superseded_plan(load: RecordLoad) -> SupersededStep {
    match load {
        RecordLoad::Found => SupersededStep::Delete,
        RecordLoad::Missing => SupersededStep::Report(SupersededDeleteResult::NotFound),
        RecordLoad::Failed(_) => SupersededStep::Report(SupersededDeleteResult::LoadFailed),
    }
}

/// What to do with the superseded record once the store answered: whatever is
/// found is deleted.
pub fn superseded_step(load: &RecordLoad) -> (s: SupersededStep)
    ensures
        s == superseded_plan(*load),
        s is Delete <==> load is Found,
{
    match load {
        RecordLoad::Found => SupersededStep::Delete,
        RecordLoad::Missing => SupersededStep::Report(SupersededDeleteResult::NotFound),
        RecordLoad::Failed(_) => SupersededStep::Report(SupersededDeleteResult::LoadFailed),
    }
}

/// What follows the attempt to delete a superseded record.
pub struct SupersededEnd {
    /// Whether the record's liveness entry is to be removed, best effort.
    pub clear_liveness: bool,
    /// The counter to increment.
    pub counter: Counter,
}

/// The records of an external store that answers every request, after a login
/// stored `session` under `created`, with `pointed` the key its request still
/// named.
pub open spec fn records_after_login<S>(
    records: Map<Seq<u8>, S>,
    created: Seq<u8>,
    session: S,
    pointed: Option<Seq<u8>>,
) -> Map<Seq<u8>, S> {
    let inserted = records.insert(created, session);
    match superseded_key(pointed, created) {
        Some(old) => {
            let load = if inserted.dom().contains(old) {
                RecordLoad::Found
            } else {
                RecordLoad::Missing
            };
            match superseded_plan(load) {
                SupersededStep::Delete => inserted.remove(old),
                SupersededStep::Report(_) => inserted,
            }
        },
        None => inserted,
    }
}

/// A login whose request still presents the pointer cookie of another session
/// deletes the record it names, stores its own, and leaves the others alone.
pub proof fn law_new_login_deletes_superseded_record<S>(
    store: StoreView,
    headers: HeaderMap,
    opens: spec_fn(Option<Seq<char>>, Seq<u8>, Seq<u8>) -> Option<Seq<u8>>,
    records: Map<Seq<u8>, S>,
    created: Seq<u8>,
    session: S,
    old: Seq<u8>,
)
    requires
        store.points_to(headers, opens) == Some(old),
        created != old,
    ensures
        ({
            let after = records_after_login(
                records,
                created,
                session,
                store.points_to(headers, opens),
            );
            &&& after == records.insert(created, session).remove(old)
            &&& after.dom().contains(created) && after[created] == session
            &&& !after.dom().contains(old)
        }),
{
    let inserted = records.insert(created, session);
    if !inserted.dom().contains(old) {
        assert(inserted.remove(old) =~= inserted);
    }
}

/// A login whose request names no other session touches no other record.
pub proof fn law_first_login_only_inserts<S>(
    records: Map<Seq<u8>, S>,
    created: Seq<u8>,
    session: S,
)
    ensures
        records_after_login(records, created, session, None) == records.insert(created, session),
{
}

/// The session key an opened pointer cookie holds: exactly 16 bytes; anything
/// else is a corrupted cookie.
pub fn session_key_in(plaintext: &Vec<u8>) -> (key: Option<SessionKey>)
    ensures
        match key {
            Some(k) => k@ == plaintext@,
            None => plaintext@.len() != 16,
        },
{
    if plaintext.len() != 16 {
        return None;
    }
    let p = plaintext;
    let key: SessionKey = [
        p[0],
        p[1],
        p[2],
        p[3],
        p[4],
        p[5],
        p[6],
        p[7],
        p[8],
        p[9],
        p[10],
        p[11],
        p[12],
        p[13],
        p[14],
        p[15],
    ];
    assert(key@ =~= plaintext@);
    Some(key)
}

impl StoreBackedSessionStore {
    /// Creates a new store-backed session store.
    pub fn new(cookie_name: CookieName, cookie_path: RoutePath, max_age: Duration) -> (s: Self)
        ensures
            s@ == (StoreView {
                sealer: SealerView {
                    name: cookie_name@,
                    secure: true,
                    path: cookie_path@,
                    max_age,
                    metrics_name: None,
                },
                liveness: None,
                max_lifetime: None,
            }),
    {
        StoreBackedSessionStore {
            sealer: CookieSealer::new(cookie_name, cookie_path, max_age),
            liveness: None,
            max_lifetime: None,
        }
    }

    /// Creates a store with the default settings: its cookies last
    /// [`default_cookie_max_age`].
    pub fn with_defaults(cookie_name: CookieName, cookie_path: RoutePath) -> (s: Self)
        ensures
            s@ == (StoreView {
                sealer: default_sealer(cookie_name@, cookie_path@),
                liveness: None,
                max_lifetime: None,
            }),
    {
        StoreBackedSessionStore::new(cookie_name, cookie_path, default_cookie_max_age())
    }

    /// Attaches server-side liveness (idle-timeout) tracking, configured by
    /// `config`.
    #[must_use]
    pub fn with_liveness(self, config: LivenessConfig) -> (s: Self)
        ensures
            s@ == (StoreView { liveness: Some(config), ..self@ }),
    {
        StoreBackedSessionStore {
            sealer: self.sealer,
            liveness: Some(config),
            max_lifetime: self.max_lifetime,
        }
    }

    /// The cookie name on the wire.
    pub fn cookie_name(&self) -> (s: &str)
        ensures
            s@ == self@.sealer.wire_name(),
    {
        self.sealer.cookie_name()
    }

    /// The associated data pointer bundles are sealed with.
    pub fn pointer_aad(&self) -> (aad: Vec<u8>)
        ensures
            aad@ == self@.pointer_aad(),
    {
        self.sealer.aad("session_ptr")
    }

    /// The record a new session is built from, under `session_key`: the login's
    /// state with the lifetime cap frozen into it, at version 0.
    pub fn seed(
        &self,
        session_key: SessionKey,
        completed: &CompletedLogin,
        default_lifetime: Duration,
        now: Timestamp,
    ) -> (seed: PersistedSessionState)
        ensures
            seed.session_key == session_key,
            seed.version == 0,
            seed.state.token_expiry == now.later(
                completed@.token_response.lifetime(default_lifetime),
            ),
            seed.state.refresh_token == completed@.token_response.refresh_token,
            seed.state.sub == completed@.subject,
            seed.state.sid == match completed@.id_token_claims {
                Some(claims) => claims.sid,
                None => None,
            },
            seed.state.created_at == now,
            seed.state.expire_at == match self@.max_lifetime {
                Some(max) => Some(now.later(max)),
                None => None,
            },
    {
        PersistedSessionState {
            session_key,
            state: SessionState::from_completed(
                completed,
                default_lifetime,
                self.max_lifetime,
                now,
            ),
            version: 0,
        }
    }

    /// The record a new session is built from, under a fresh time-ordered key.
    pub fn create_session(
        &self,
        completed: &CompletedLogin,
        default_lifetime: Duration,
        now: Timestamp,
    ) -> (seed: PersistedSessionState)
        ensures
            is_uuid_v7(seed.session_key),
            seed.version == 0,
            seed.state.token_expiry == now.later(
                completed@.token_response.lifetime(default_lifetime),
            ),
            seed.state.refresh_token == completed@.token_response.refresh_token,
            seed.state.sub == completed@.subject,
            seed.state.sid == match completed@.id_token_claims {
                Some(claims) => claims.sid,
                None => None,
            },
            seed.state.created_at == now,
            seed.state.expire_at == match self@.max_lifetime {
                Some(max) => Some(now.later(max)),
                None => None,
            },
    {
        self.seed(generate_session_key(), completed, default_lifetime, now)
    }

    /// Turns a sealed session key into the `Set-Cookie` values that store it:
    /// the pointer cookie, and the kid sidecar (a `Max-Age=0` clear when there
    /// is no identity). Both are header-safe by construction.
    ///
    /// # Errors
    ///
    /// An [`Encoding`](SessionErrorKind::Encoding) error where a value could
    /// not stand in a header.
    pub fn pointer_cookie_headers(&self, bundle: &[u8], kid: Option<&str>) -> (r: Result<
        SavedCookies,
        SessionError,
    >)
        requires
            base64_len(bundle@.len()) <= isize::MAX,
            kid matches Some(k) ==> base64_len(encode_utf8(k@).len()) <= isize::MAX,
        ensures
            base64url_bytes(base64url(bundle@)) == Some(bundle@),
            r is Ok,
            texts(r->Ok_0.headers@) == seq![
                set_cookie(
                    self@.sealer.wire_name(),
                    base64url(bundle@),
                    self@.sealer.full_attrs(),
                ),
                self@.sealer.kid_header(opt_str(kid)),
            ],
            r->Ok_0.counter@ == self@.sealer.encrypt_counter(opt_str(kid)),
    {
        let counter = self.sealer.record_encrypt(kid);
        let encoded = encode_base64url(bundle);
        let attrs = self.sealer.cookie_attrs();
        let pointer = set_cookie_text(self.sealer.cookie_name(), encoded.as_str(), attrs.as_str());
        proof {
            lemma_sealer_texts(self@.sealer);
            lemma_url_safe_is_header_text(encoded@);
            lemma_set_cookie_is_header_text(self@.sealer.wire_name(), encoded@, attrs@);
        }
        if !is_header_value(pointer.as_str()) {
            return Err(
                SessionError::new(SessionErrorKind::Encoding, "failed to parse header value"),
            );
        }
        match self.sealer.build_kid_header(kid) {
            Ok(kid_header) => {
                let mut headers: Vec<String> = Vec::new();
                headers.push(pointer);
                headers.push(kid_header);
                proof {
                    assert(texts(headers@) =~= seq![pointer@, kid_header@]);
                }
                Ok(SavedCookies { headers, counter })
            },
            Err(e) => Err(e),
        }
    }

    /// What reading the pointer cookie of a request has to do: nothing, report
    /// a malformed cookie, or open a bundle.
    pub fn read_pointer_cookie(&self, headers: &HeaderMap) -> (load: PointerLoad)
        ensures
            match load {
                PointerLoad::Absent => self@.found(*headers) == FoundPointer::Absent,
                PointerLoad::Malformed { kid } => {
                    &&& self@.found(*headers) == FoundPointer::Malformed
                    &&& opt_text(kid) == request_kid(*headers, self@.sealer.wire_name())
                },
                PointerLoad::Unseal { kid, bundle, aad } => {
                    &&& self@.found(*headers) == FoundPointer::Sealed(bundle@)
                    &&& opt_text(kid) == request_kid(*headers, self@.sealer.wire_name())
                    &&& aad@ == self@.pointer_aad()
                },
            },
    {
        match get_cookie(headers, self.sealer.cookie_name()) {
            None => PointerLoad::Absent,
            Some(encoded) => {
                let kid = get_kid_cookie(headers, self.sealer.cookie_name());
                match decode_base64url(encoded.as_str()) {
                    None => PointerLoad::Malformed { kid },
                    Some(bundle) => PointerLoad::Unseal { kid, bundle, aad: self.pointer_aad() },
                }
            },
        }
    }

    /// What an opened pointer cookie says, and the counter for it: `opened` is
    /// the plaintext, or `None` when no key opened the bundle.
    pub fn finish_pointer(
        &self,
        kid: Option<&str>,
        matches_key: bool,
        opened: Option<&Vec<u8>>,
    ) -> (r: (Option<SessionKey>, Counter))
        ensures
            ({
                let outcome = match opened {
                    None => DecryptResult::DecryptFailed,
                    Some(plaintext) => if plaintext@.len() == 16 {
                        DecryptResult::Success
                    } else {
                        DecryptResult::PayloadInvalid
                    },
                };
                &&& r.1@ == self@.sealer.decrypt_counter(opt_str(kid), matches_key, outcome)
                &&& key_bytes(r.0) == pointer_key(
                    match opened {
                        Some(plaintext) => Some(plaintext@),
                        None => None,
                    },
                )
            }),
    {
        match opened {
            None => (
                None,
                self.sealer.record_decrypt(kid, matches_key, DecryptResult::DecryptFailed),
            ),
            Some(plaintext) => match session_key_in(plaintext) {
                Some(key) => (
                    Some(key),
                    self.sealer.record_decrypt(kid, matches_key, DecryptResult::Success),
                ),
                None => (
                    None,
                    self.sealer.record_decrypt(kid, matches_key, DecryptResult::PayloadInvalid),
                ),
            },
        }
    }

    /// The counter for a pointer cookie that is no base64url.
    pub fn record_malformed_pointer(&self, kid: Option<&str>, matches_key: bool) -> (c: Counter)
        ensures
            c@ == self@.sealer.decrypt_counter(
                opt_str(kid),
                matches_key,
                DecryptResult::BadEncoding,
            ),
    {
        self.sealer.record_decrypt(kid, matches_key, DecryptResult::BadEncoding)
    }

    /// What follows the deletion of a record: the liveness entry goes too where
    /// one is kept, and the pointer cookie and the kid sidecar are cleared.
    ///
    /// # Errors
    ///
    /// An [`Unavailable`](SessionErrorKind::Unavailable) error with what the
    /// external store said when it failed to delete.
    pub fn delete_session(&self, failure: Option<&str>) -> (r: Result<DeletePlan, SessionError>)
        ensures
            match failure {
                Some(message) => r matches Err(e) && e@ == unavailable_error(message@),
                None => {
                    &&& r is Ok
                    &&& r->Ok_0.clear_liveness == (self@.liveness is Some)
                    &&& texts(r->Ok_0.headers@) == seq![
                        clear_cookie(self@.sealer.wire_name(), self@.sealer.base_attrs()),
                        clear_cookie(
                            kid_name(self@.sealer.wire_name()),
                            self@.sealer.base_attrs(),
                        ),
                    ]
                },
            },
    {
        if let Some(message) = failure {
            return Err(to_session_err(message));
        }
        let attrs = self.sealer.base_cookie_attrs();
        let mut headers: Vec<String> = Vec::new();
        let pointer = clear_cookie_text(self.sealer.cookie_name(), attrs.as_str());
        proof {
            lemma_sealer_texts(self@.sealer);
            lemma_set_cookie_is_header_text(self@.sealer.wire_name(), Seq::empty(), attrs@);
        }
        if is_header_value(pointer.as_str()) {
            headers.push(pointer);
        }
        match self.sealer.build_kid_header(None) {
            Ok(kid_header) => {
                headers.push(kid_header);
                proof {
                    assert(texts(headers@) =~= seq![pointer@, kid_header@]);
                }
            },
            Err(_) => {},
        }
        Ok(DeletePlan { clear_liveness: self.liveness.is_some(), headers })
    }

    /// Whether this store tracks liveness.
    pub fn tracks_liveness(&self) -> (r: bool)
        ensures
            r == (self@.liveness is Some),
    {
        self.liveness.is_some()
    }

    /// The verdict on a session's liveness, and the write that follows it.
    /// Without a liveness store the session is untracked. Activity is recorded
    /// for a live request, throttled against the persisted `last_active`.
    pub fn check_liveness(
        &self,
        read: LivenessRead,
        token_expiry: Timestamp,
        now: Timestamp,
        record_activity: bool,
        expire_at: Option<Timestamp>,
    ) -> (plan: LivenessPlan)
        ensures
            plan == match self@.liveness {
                None => LivenessPlan { verdict: LivenessVerdict::Untracked, touch: None },
                Some(config) => liveness_plan(
                    config,
                    read,
                    token_expiry,
                    now,
                    record_activity,
                    expire_at,
                ),
            },
    {
        match self.liveness {
            None => LivenessPlan { verdict: LivenessVerdict::Untracked, touch: None },
            Some(config) => match read {
                LivenessRead::Failed => LivenessPlan {
                    verdict: LivenessVerdict::Active,
                    touch: None,
                },
                LivenessRead::Entry(last_active) => {
                    let verdict = config.verdict(last_active, now);
                    let due = config.is_touch_due(last_active, now);
                    let touch = if record_activity && verdict == LivenessVerdict::Active && due {
                        Some(
                            Touch {
                                expire_at: config.touch_deadline(expire_at, token_expiry, now),
                            },
                        )
                    } else {
                        None
                    };
                    LivenessPlan { verdict, touch }
                },
            },
        }
    }

    /// The counter for a liveness store failure.
    pub fn record_liveness_failure(&self, op: LivenessFailure) -> (c: Counter)
        ensures
            c@ == self@.liveness_counter(op),
    {
        let mut labels: Vec<Label> = Vec::new();
        labels.push(Label::new("op", op.as_str()));
        proof {
            assert(label_texts(labels@) =~= seq![("op"@, op.label())]);
        }
        emit_counter("huskarl.session.liveness_failure", labels, self.metrics_label())
    }

    /// What follows the attempt to delete a superseded record: its liveness
    /// entry goes only with it.
    pub fn superseded_end(&self, deleted: bool) -> (end: SupersededEnd)
        ensures
            end.clear_liveness == (deleted && self@.liveness is Some),
            end.counter@ == self@.superseded_counter(
                if deleted {
                    SupersededDeleteResult::Deleted
                } else {
                    SupersededDeleteResult::DeleteFailed
                },
            ),
    {
        let outcome = if deleted {
            SupersededDeleteResult::Deleted
        } else {
            SupersededDeleteResult::DeleteFailed
        };
        SupersededEnd {
            clear_liveness: deleted && self.liveness.is_some(),
            counter: self.record_superseded(outcome),
        }
    }

    /// The counter for the deletion of a superseded record.
    pub fn record_superseded(&self, outcome: SupersededDeleteResult) -> (c: Counter)
        ensures
            c@ == self@.superseded_counter(outcome),
    {
        let mut labels: Vec<Label> = Vec::new();
        labels.push(Label::new("outcome", outcome.as_str()));
        proof {
            assert(label_texts(labels@) =~= seq![("outcome"@, outcome.label())]);
        }
        emit_counter("huskarl.session.superseded_delete", labels, self.metrics_label())
    }

    fn metrics_label(&self) -> (name: Option<&str>)
        ensures
            opt_str(name) == self@.sealer.metrics_name,
    {
        self.sealer.metrics_label()
    }
}

impl Sealed for StoreBackedSessionStore {

}

impl SessionDriver for StoreBackedSessionStore {
    open spec fn cookie_settings(&self) -> SealerView {
        self@.sealer
    }

    open spec fn frozen_cap(&self) -> Option<Duration> {
        self@.max_lifetime
    }

    open spec fn is_stamped_from(
        &self,
        before: &Self,
        secure: bool,
        max_lifetime: Option<Duration>,
        metrics_name: Option<Seq<char>>,
    ) -> bool {
        self@ == (StoreView {
            sealer: stamped(before@.sealer, secure, max_lifetime, metrics_name),
            max_lifetime,
            ..before@
        })
    }

    /// Stamps the engine-derived session policy onto this store: `secure`
    /// fixes the cookie name prefix and the `Secure` attribute; `max_lifetime`
    /// clamps the cookie `Max-Age`, so no session cookie outlives the session
    /// cap, and is frozen into new sessions.
    fn apply_session_policy(
        &mut self,
        secure: bool,
        max_lifetime: Option<Duration>,
        metrics_name: Option<&str>,
    )
    {
        self.sealer.apply_secure(secure);
        if let Some(cap) = max_lifetime {
            self.sealer.clamp_max_age(cap);
        }
        self.sealer.set_metrics_name(metrics_name);
        self.max_lifetime = max_lifetime;
    }
}

/// A saved pointer is found again: a request that presents the pointer cookie
/// first under its name yields the bundle the key was sealed into.
pub proof fn law_saved_pointer_is_found(
    store: StoreView,
    bundle: Seq<u8>,
    later: HeaderMap,
    at: int,
)
    requires
        base64url_bytes(base64url(bundle)) == Some(bundle),
        0 <= at < request_cookies(later).len(),
        request_cookies(later)[at] == (store.sealer.wire_name(), base64url(bundle)),
        forall|k: int|
            0 <= k < at ==> (#[trigger] request_cookies(later)[k]).0 != store.sealer.wire_name(),
    ensures
        store.found(later) == FoundPointer::Sealed(bundle),
{
    crate::cookie::lemma_value_named_at(request_cookies(later), store.sealer.wire_name(), at);
}

/// A saved pointer leads back to its session: where the cipher opens what it
/// sealed, a request that presents the pointer cookie first under its name
/// holds the very key, with the kid sidecar as saved, replaced by anything, or
/// missing.
pub proof fn law_saved_pointer_leads_back(
    store: StoreView,
    key: Seq<u8>,
    bundle: Seq<u8>,
    later: HeaderMap,
    at: int,
    opens: spec_fn(Option<Seq<char>>, Seq<u8>, Seq<u8>) -> Option<Seq<u8>>,
)
    requires
        key.len() == 16,
        base64url_bytes(base64url(bundle)) == Some(bundle),
        0 <= at < request_cookies(later).len(),
        request_cookies(later)[at] == (store.sealer.wire_name(), base64url(bundle)),
        forall|k: int|
            0 <= k < at ==> (#[trigger] request_cookies(later)[k]).0 != store.sealer.wire_name(),
        opens(None, bundle, store.pointer_aad()) == Some(key),
        forall|hint: Option<Seq<char>>| #[trigger]
            opens(hint, bundle, store.pointer_aad()) matches Some(p) ==> p == key,
    ensures
        store.points_to(later, opens) == Some(key),
{
    law_saved_pointer_is_found(store, bundle, later, at);
    let hint = request_kid(later, store.sealer.wire_name());
    assert(opens(hint, bundle, store.pointer_aad()) matches Some(p) ==> p == key);
}

// -- Laws of the liveness check --

/// Activity is recorded exactly when it is owed: the entry was read, the
/// request counts as activity, the session is not idle, and there is no entry
/// yet or the last one is as old as the touch interval. A failed read never
/// expires a session, and without liveness tracking nothing is done.
pub proof fn law_touch_is_owed(
    store: StoreBackedSessionStore,
    config: LivenessConfig,
    read: LivenessRead,
    token_expiry: Timestamp,
    now: Timestamp,
    record_activity: bool,
    expire_at: Option<Timestamp>,
    plan: LivenessPlan,
)
    requires
        call_ensures(
            StoreBackedSessionStore::check_liveness,
            (&store, read, token_expiry, now, record_activity, expire_at),
            plan,
        ),
    ensures
        store@.liveness is None ==> plan.verdict is Untracked && plan.touch is None,
        store@.liveness == Some(config) ==> {
            &&& read is Failed ==> plan.verdict is Active && plan.touch is None
            &&& read matches LivenessRead::Entry(last_active) ==> {
                &&& plan.verdict is Expired <==> (last_active is Some && config.idle_timeout is Some
                    && now.nanos - last_active->0.nanos > config.idle_timeout->0.nanos)
                &&& !(plan.verdict is Expired) ==> plan.verdict is Active
                &&& plan.touch is Some <==> (record_activity && !(plan.verdict is Expired) && (
                last_active is None || config.touch_min_interval.nanos == 0 || now.nanos
                    - last_active->0.nanos >= config.touch_min_interval.nanos))
            }
        },
{
}

/// The entry a touch writes lapses no later than the session's deadline and no
/// later than the idle timeout, counted from the later of the touch and the
/// token expiry; and at one of the two.
pub proof fn law_touch_lapses_with_the_session(
    store: StoreBackedSessionStore,
    config: LivenessConfig,
    read: LivenessRead,
    token_expiry: Timestamp,
    now: Timestamp,
    record_activity: bool,
    expire_at: Option<Timestamp>,
    plan: LivenessPlan,
)
    requires
        call_ensures(
            StoreBackedSessionStore::check_liveness,
            (&store, read, token_expiry, now, record_activity, expire_at),
            plan,
        ),
        store@.liveness == Some(config),
        plan.touch is Some,
    ensures
        config.idle_timeout is None ==> plan.touch->0.expire_at == expire_at,
        config.idle_timeout matches Some(idle) ==> ({
            let from = if token_expiry.nanos > now.nanos {
                token_expiry.nanos
            } else {
                now.nanos
            };
            let idle_end = if from + idle.nanos <= i128::MAX {
                from + idle.nanos
            } else {
                i128::MAX as int
            };
            let end = plan.touch->0.expire_at;
            &&& end is Some && end->0.nanos <= idle_end
            &&& expire_at is Some ==> end->0.nanos <= expire_at->0.nanos
            &&& end->0.nanos == idle_end || end == expire_at
        }),
{
}

/// A user who keeps coming back is never torn down for idleness: with the entry
/// moved to `now` exactly when the plan of a request holds a touch, the next
/// request within the idle timeout less the touch interval finds the session
/// active. Applied from request to request, this covers any run of them.
pub proof fn law_steady_use_keeps_a_session(
    store: StoreBackedSessionStore,
    config: LivenessConfig,
    last_active: Option<Timestamp>,
    token_expiry: Timestamp,
    now: Timestamp,
    expire_at: Option<Timestamp>,
    plan: LivenessPlan,
    next_expiry: Timestamp,
    next: Timestamp,
    next_counts: bool,
    next_expire_at: Option<Timestamp>,
    next_plan: LivenessPlan,
)
    requires
        store@.liveness == Some(config),
        config.idle_timeout is Some,
        config.touch_min_interval.nanos < config.idle_timeout->0.nanos,
        call_ensures(
            StoreBackedSessionStore::check_liveness,
            (&store, LivenessRead::Entry(last_active), token_expiry, now, true, expire_at),
            plan,
        ),
        !(plan.verdict is Expired),
        now.nanos <= next.nanos,
        next.nanos - now.nanos <= config.idle_timeout->0.nanos - config.touch_min_interval.nanos,
        call_ensures(
            StoreBackedSessionStore::check_liveness,
            (
                &store,
                LivenessRead::Entry(
                    if plan.touch is Some {
                        Some(now)
                    } else {
                        last_active
                    },
                ),
                next_expiry,
                next,
                next_counts,
                next_expire_at,
            ),
            next_plan,
        ),
    ensures
        next_plan.verdict is Active,
{
}

// -- Laws of an update --

/// An update is committed exactly when its write was; a lost race is run again
/// up to the fifth attempt and then reported as a conflict; and what the store
/// says when it fails is passed on as retryable.
pub proof fn law_only_a_committed_write_commits(
    run: UpdateRun,
    swap: RecordSwap,
    next: UpdateNext,
)
    requires
        call_ensures(UpdateRun::after_swap, (run, swap), next),
    ensures
        next is Commit <==> swap == RecordSwap::Compared(SaveOutcome::Committed),
        swap == RecordSwap::Compared(SaveOutcome::Conflict) ==> {
            &&& run.lost() < 4 ==> next is Reload && next->Reload_0.lost() == run.lost() + 1
            &&& run.lost() >= 4 ==> next is Fail && next->Fail_0@.kind is Conflict
        },
        swap matches RecordSwap::Failed(message) ==> {
            &&& next is Fail
            &&& next->Fail_0@.kind is Unavailable
            &&& next->Fail_0@.source == Some(message@)
        },
{
}

/// A mutation is applied exactly when the record was found; a missing record
/// is gone, and what the store says when it fails is passed on as retryable.
pub proof fn law_only_a_found_record_is_updated(
    run: UpdateRun,
    load: RecordLoad,
    r: Option<SessionError>,
)
    requires
        call_ensures(UpdateRun::after_load, (&run, load), r),
    ensures
        r is None <==> load is Found,
        load is Missing ==> r->0@.kind is Gone,
        load matches RecordLoad::Failed(message) ==> r->0@.kind is Unavailable && r->0@.source
            == Some(message@),
{
}

/// Every write moves the version on by one; from the highest it goes on at the
/// lowest.
pub proof fn law_version_moves_on(version: i32)
    ensures
        version < i32::MAX ==> next_version(version) == version + 1,
        version == i32::MAX ==> next_version(version) == i32::MIN,
{
}

// -- Laws of a new session --

/// A new record is what its login says, under its key, in version 0: it begins
/// at `now`, and must end the cap stamped onto the store after `now`, where
/// there is one.
pub proof fn law_new_record_is_its_login(
    store: StoreBackedSessionStore,
    key: SessionKey,
    completed: CompletedLogin,
    default_lifetime: Duration,
    now: Timestamp,
    seed: PersistedSessionState,
)
    requires
        call_ensures(
            StoreBackedSessionStore::seed,
            (&store, key, &completed, default_lifetime, now),
            seed,
        ) || call_ensures(
            StoreBackedSessionStore::create_session,
            (&store, &completed, default_lifetime, now),
            seed,
        ),
    ensures
        call_ensures(
            StoreBackedSessionStore::seed,
            (&store, key, &completed, default_lifetime, now),
            seed,
        ) ==> seed.session_key == key,
        seed.version == 0,
        seed.state.created_at == now,
        seed.state.sub == completed@.subject,
        seed.state.sid == (if completed@.id_token_claims is Some {
            completed@.id_token_claims->0.sid
        } else {
            None
        }),
        seed.state.refresh_token == completed@.token_response.refresh_token,
        completed@.token_response.expires_in matches Some(secs) ==> (now.nanos + secs
            * 1_000_000_000 <= i128::MAX ==> seed.state.token_expiry.nanos == now.nanos + secs
            * 1_000_000_000),
        completed@.token_response.expires_in is None && now.nanos + default_lifetime.nanos
            <= i128::MAX ==> seed.state.token_expiry.nanos == now.nanos + default_lifetime.nanos,
        seed.state.expire_at is Some <==> store@.max_lifetime is Some,
        store@.max_lifetime matches Some(cap) ==> {
            &&& now.nanos + cap.nanos <= i128::MAX ==> seed.state.expire_at->0.nanos == now.nanos
                + cap.nanos
            &&& now.nanos + cap.nanos > i128::MAX ==> seed.state.expire_at->0.nanos == i128::MAX
        },
{
}

/// The record a login supersedes is the one its request pointed to, unless that
/// is the new one; it is deleted exactly when it is found; and its liveness
/// entry goes exactly with it.
pub proof fn law_superseded_record_is_the_other_one(
    store: StoreBackedSessionStore,
    pointed: Option<SessionKey>,
    created: SessionKey,
    old_key: Option<SessionKey>,
    load: RecordLoad,
    step: SupersededStep,
    deleted: bool,
    end: SupersededEnd,
)
    requires
        call_ensures(superseded_record, (pointed, &created), old_key),
        call_ensures(superseded_step, (&load,), step),
        call_ensures(StoreBackedSessionStore::superseded_end, (&store, deleted), end),
    ensures
        old_key is Some <==> pointed is Some && pointed->0@ != created@,
        old_key is Some ==> old_key->0@ == pointed->0@,
        step is Delete <==> load is Found,
        end.clear_liveness <==> deleted && store@.liveness is Some,
{
}

// -- Laws of the pointer cookie --

/// A request points to a session exactly through the first cookie of the
/// pointer's name: without one there is nothing to open, and what is opened is
/// what that cookie encodes, with the data it was sealed with.
pub proof fn law_pointer_is_its_cookie(
    store: StoreBackedSessionStore,
    headers: HeaderMap,
    load: PointerLoad,
)
    requires
        call_ensures(StoreBackedSessionStore::read_pointer_cookie, (&store, &headers), load),
    ensures
        load is Absent <==> forall|i: int|
            0 <= i < request_cookies(headers).len() ==> (#[trigger] request_cookies(headers)[i]).0
                != store@.sealer.wire_name(),
        forall|at: int|
            0 <= at < request_cookies(headers).len() && (#[trigger] request_cookies(headers)[at]).0
                == store@.sealer.wire_name() && (forall|k: int|
                0 <= k < at ==> (#[trigger] request_cookies(headers)[k]).0
                    != store@.sealer.wire_name()) ==> {
                &&& load is Malformed <==> base64url_bytes(request_cookies(headers)[at].1) is None
                &&& load is Unseal ==> base64url_bytes(request_cookies(headers)[at].1) == Some(
                    load->bundle@,
                )
            },
        load is Unseal ==> load->aad@ == encode_utf8(
            "session_ptr"@ + ":"@ + store@.sealer.wire_name(),
        ),
{
    let pairs = request_cookies(headers);
    let name = store@.sealer.wire_name();
    if forall|i: int| 0 <= i < pairs.len() ==> (#[trigger] pairs[i]).0 != name {
        crate::cookie::lemma_value_named_none(pairs, name);
    } else if load is Absent {
        crate::cookie::lemma_first_named(pairs, name);
    }
    assert forall|at: int|
        0 <= at < pairs.len() && (#[trigger] pairs[at]).0 == name && (forall|k: int|
            0 <= k < at ==> (#[trigger] pairs[k]).0 != name) implies {
        &&& load is Malformed <==> base64url_bytes(pairs[at].1) is None
        &&& load is Unseal ==> base64url_bytes(pairs[at].1) == Some(load->bundle@)
    } by {
        crate::cookie::lemma_value_named_at(pairs, name, at);
    }
}

/// An opened pointer cookie holds a session key exactly when it holds sixteen
/// bytes, and then those.
pub proof fn law_pointer_holds_sixteen_bytes(
    store: StoreBackedSessionStore,
    kid: Option<&str>,
    matches_key: bool,
    plaintext: Vec<u8>,
    r: (Option<SessionKey>, Counter),
    none: (Option<SessionKey>, Counter),
    key: Option<SessionKey>,
)
    requires
        call_ensures(
            StoreBackedSessionStore::finish_pointer,
            (&store, kid, matches_key, Some(&plaintext)),
            r,
        ),
        call_ensures(StoreBackedSessionStore::finish_pointer, (&store, kid, matches_key, None), none),
        call_ensures(session_key_in, (&plaintext,), key),
    ensures
        none.0 is None,
        r.0 is Some <==> plaintext@.len() == 16,
        r.0 matches Some(k) ==> k@ == plaintext@,
        key is Some <==> plaintext@.len() == 16,
        key matches Some(k) ==> k@ == plaintext@,
{
}

/// A deleted session's cookies are both cleared, its liveness entry goes where
/// one is kept, and a failed delete is passed on as retryable.
pub proof fn law_delete_clears_both_cookies(
    store: StoreBackedSessionStore,
    failure: Option<&str>,
    r: Result<DeletePlan, SessionError>,
)
    requires
        call_ensures(StoreBackedSessionStore::delete_session, (&store, failure), r),
    ensures
        r is Ok <==> failure is None,
        failure matches Some(message) ==> r->Err_0@.kind is Unavailable && r->Err_0@.source
            == Some(message@),
        r matches Ok(plan) ==> {
            &&& plan.clear_liveness <==> store@.liveness is Some
            &&& plan.headers@.len() == 2
            &&& plan.headers@[0]@ == store@.sealer.wire_name() + "=; "@ + crate::cookie::guarded(
                store@.sealer.secure,
                store@.sealer.path,
            ) + "; Max-Age=0"@
            &&& plan.headers@[1]@ == store@.sealer.wire_name() + ".kid"@ + "=; "@
                + crate::cookie::guarded(store@.sealer.secure, store@.sealer.path)
                + "; Max-Age=0"@
        },
{
    if let Ok(plan) = r {
        crate::cookie::lemma_guards(store@.sealer.secure, store@.sealer.path);
        let all = texts(plan.headers@);
        assert(all.len() == plan.headers@.len());
        assert(all[0] == plan.headers@[0]@);
        assert(all[1] == plan.headers@[1]@);
    }
}

/// A saved pointer is two cookies: the pointer, set to what the bundle encodes
/// to, and the kid sidecar, set where there is a key identity and cleared where
/// there is none.
pub proof fn law_pointer_is_saved_in_its_cookie(
    store: StoreBackedSessionStore,
    bundle: &[u8],
    kid: Option<&str>,
    r: Result<SavedCookies, SessionError>,
)
    requires
        base64_len(bundle@.len()) <= isize::MAX,
        kid matches Some(k) ==> base64_len(encode_utf8(k@).len()) <= isize::MAX,
        call_ensures(StoreBackedSessionStore::pointer_cookie_headers, (&store, bundle, kid), r),
    ensures
        r is Ok,
        r->Ok_0.headers@.len() == 2,
        r->Ok_0.headers@[0]@ == store@.sealer.wire_name() + "="@ + base64url(bundle@) + "; "@
            + crate::cookie::guarded_for_its_time(store@.sealer),
        kid is None ==> r->Ok_0.headers@[1]@ == store@.sealer.wire_name() + ".kid"@ + "=; "@
            + crate::cookie::guarded(store@.sealer.secure, store@.sealer.path) + "; Max-Age=0"@,
        kid matches Some(k) ==> r->Ok_0.headers@[1]@ == store@.sealer.wire_name() + ".kid"@ + "="@
            + base64url(encode_utf8(k@)) + "; "@ + crate::cookie::guarded_for_its_time(
            store@.sealer,
        ),
{
    crate::cookie::lemma_guards(store@.sealer.secure, store@.sealer.path);
    let saved = r->Ok_0;
    let all = texts(saved.headers@);
    assert(all.len() == saved.headers@.len());
    assert(all[0] == saved.headers@[0]@);
    assert(all[1] == saved.headers@[1]@);
}

// -- Laws of persisting a refresh --

/// A committed refresh replaces the session at hand by what was committed, and
/// owes no cookie. One that could not be committed is applied in memory all the
/// same: the session goes on with the new tokens, under the same record, and
/// the failure is passed on.
pub proof fn law_refresh_is_applied_either_way<S: PersistedSession>(
    session: &mut S,
    committed: Result<S, SessionError>,
    token_response: TokenResponse,
    default_lifetime: Duration,
    now: Timestamp,
    after: SessionState,
    r: Result<Vec<String>, SessionError>,
)
    requires
        call_ensures(
            finish_refresh::<S>,
            (session, committed, &token_response, default_lifetime, now),
            r,
        ),
        call_ensures(
            SessionState::refreshed,
            (&old(session).embedded(), &token_response, default_lifetime, now),
            after,
        ),
    ensures
        committed matches Ok(merged) ==> *final(session) == merged && r is Ok && r->Ok_0@.len()
            == 0,
        committed matches Err(e) ==> {
            &&& r == Err::<Vec<String>, SessionError>(e)
            &&& final(session).embedded() == after
            &&& final(session).record().session_key == old(session).record().session_key
            &&& final(session).record().version == old(session).record().version
        },
{
}

/// A mutated session is written under the version after the one it was loaded
/// with, and is otherwise what the mutation made of it; a mutation that failed
/// is not written at all.
pub proof fn law_mutation_is_written_whole<S: PersistedSession>(
    run: UpdateRun,
    session: &mut S,
    expected: i32,
    mutated: Result<(), SessionError>,
    r: Result<(), SessionError>,
)
    requires
        call_ensures(UpdateRun::stamp_version::<S>, (&run, session, expected, mutated), r),
    ensures
        r is Ok <==> mutated is Ok,
        mutated matches Err(e) ==> r == Err::<(), SessionError>(e) && *final(session)
            == *old(session),
        mutated is Ok ==> {
            &&& expected < i32::MAX ==> final(session).record().version == expected + 1
            &&& expected == i32::MAX ==> final(session).record().version == i32::MIN
            &&& final(session).record().session_key == old(session).record().session_key
            &&& final(session).record().state == old(session).record().state
            &&& final(session).embedded() == old(session).embedded()
        },
{
}

/// An update begins without a lost race.
pub proof fn law_update_begins_afresh(run: UpdateRun)
    requires
        call_ensures(UpdateRun::new, (), run),
    ensures
        run.lost() == 0,
{
}

/// A store begins with the settings it is given, secure and without liveness;
/// the defaults let its cookies live for 400 days; and attaching liveness
/// changes nothing else.
pub proof fn law_pointer_store_keeps_its_settings(
    cookie_name: CookieName,
    cookie_path: RoutePath,
    max_age: Duration,
    s: StoreBackedSessionStore,
    by_default: StoreBackedSessionStore,
    config: LivenessConfig,
    tracking: StoreBackedSessionStore,
    tracks: bool,
)
    requires
        call_ensures(StoreBackedSessionStore::new, (cookie_name, cookie_path, max_age), s),
        call_ensures(
            StoreBackedSessionStore::with_defaults,
            (cookie_name, cookie_path),
            by_default,
        ),
        call_ensures(StoreBackedSessionStore::with_liveness, (s, config), tracking),
        call_ensures(StoreBackedSessionStore::tracks_liveness, (&tracking,), tracks),
    ensures
        s@.sealer.name == cookie_name@,
        s@.sealer.path == cookie_path@,
        s@.sealer.secure,
        s@.sealer.max_age == max_age,
        s@.liveness is None,
        s@.max_lifetime is None,
        by_default@.sealer.name == cookie_name@,
        by_default@.sealer.path == cookie_path@,
        by_default@.sealer.max_age.nanos == 400 * 24 * 3600 * 1_000_000_000int,
        by_default@.liveness is None,
        tracks,
        tracking@.liveness == Some(config),
        tracking@.sealer == s@.sealer,
        tracking@.max_lifetime == s@.max_lifetime,
{
}

/// Stamping a policy keeps how a store tracks liveness.
pub proof fn law_stamp_keeps_liveness(
    config: crate::config::LoginConfig,
    store: StoreBackedSessionStore,
    metrics_name: Option<&str>,
    e: crate::engine::base::LoginEngine<StoreBackedSessionStore>,
)
    requires
        call_ensures(
            crate::engine::base::LoginEngine::<StoreBackedSessionStore>::new,
            (config, store, metrics_name),
            e,
        ),
    ensures
        e.session_store@.liveness == store@.liveness,
        e.session_store@.sealer.name == store@.sealer.name,
        e.session_store@.sealer.secure == config.secure,
        config.session_lifetime matches crate::config::SessionLifetime::Bounded(cap)
            ==> e.session_store@.max_lifetime == Some(cap),
        config.session_lifetime is DelegatedToAuthorizationServer
            ==> e.session_store@.max_lifetime is None,
{
}

/// A pointer is sealed with its purpose and the name of its cookie.
pub proof fn law_pointer_is_bound_to_its_cookie(
    store: StoreBackedSessionStore,
    aad: Vec<u8>,
    name: &str,
)
    requires
        call_ensures(StoreBackedSessionStore::pointer_aad, (&store,), aad),
        call_ensures(StoreBackedSessionStore::cookie_name, (&store,), name),
    ensures
        aad@ == encode_utf8("session_ptr"@ + ":"@ + name@),
{
}

/// What a store reports: failed liveness operations and superseded records, each
/// under a name of its own with how it went.
pub proof fn law_store_events_are_counted(
    store: StoreBackedSessionStore,
    op: LivenessFailure,
    failed: Counter,
    outcome: SupersededDeleteResult,
    superseded: Counter,
    deleted: bool,
    end: SupersededEnd,
)
    requires
        call_ensures(StoreBackedSessionStore::record_liveness_failure, (&store, op), failed),
        call_ensures(StoreBackedSessionStore::record_superseded, (&store, outcome), superseded),
        call_ensures(StoreBackedSessionStore::superseded_end, (&store, deleted), end),
    ensures
        crate::engine::load::counts_once(
            failed@,
            "huskarl.session.liveness_failure"@,
            (
                "op"@,
                match op {
                    LivenessFailure::Read => "read"@,
                    LivenessFailure::Touch => "touch"@,
                    LivenessFailure::Clear => "clear"@,
                },
            ),
            store@.sealer.metrics_name,
        ),
        crate::engine::load::counts_once(
            superseded@,
            "huskarl.session.superseded_delete"@,
            (
                "outcome"@,
                match outcome {
                    SupersededDeleteResult::Deleted => "deleted"@,
                    SupersededDeleteResult::NotFound => "not_found"@,
                    SupersededDeleteResult::LoadFailed => "load_failed"@,
                    SupersededDeleteResult::DeleteFailed => "delete_failed"@,
                },
            ),
            store@.sealer.metrics_name,
        ),
        crate::engine::load::counts_once(
            end.counter@,
            "huskarl.session.superseded_delete"@,
            (
                "outcome"@,
                if deleted {
                    "deleted"@
                } else {
                    "delete_failed"@
                },
            ),
            store@.sealer.metrics_name,
        ),
{
}

/// A pointer cookie is counted under how it was opened.
pub proof fn law_pointer_reads_are_counted(
    store: StoreBackedSessionStore,
    kid: Option<&str>,
    matches_key: bool,
    plaintext: Vec<u8>,
    malformed: Counter,
    opened: (Option<SessionKey>, Counter),
    failed: (Option<SessionKey>, Counter),
)
    requires
        call_ensures(
            StoreBackedSessionStore::record_malformed_pointer,
            (&store, kid, matches_key),
            malformed,
        ),
        call_ensures(
            StoreBackedSessionStore::finish_pointer,
            (&store, kid, matches_key, Some(&plaintext)),
            opened,
        ),
        call_ensures(
            StoreBackedSessionStore::finish_pointer,
            (&store, kid, matches_key, None),
            failed,
        ),
    ensures
        malformed@.labels[2] == ("outcome"@, "bad_encoding"@),
        failed.1@.labels[2] == ("outcome"@, "decrypt_failed"@),
        plaintext@.len() == 16 ==> opened.1@.labels[2] == ("outcome"@, "ok"@),
        plaintext@.len() != 16 ==> opened.1@.labels[2] == ("outcome"@, "payload_invalid"@),
{
}

/// What an external store says when it fails is passed on as worth a retry.
pub proof fn law_store_failures_are_retryable(message: &str, e: SessionError, retryable: bool)
    requires
        call_ensures(to_session_err, (message,), e),
        call_ensures(SessionError::is_retryable, (&e,), retryable),
    ensures
        retryable,
        e@.source == Some(message@),
{
}

} // verus!
