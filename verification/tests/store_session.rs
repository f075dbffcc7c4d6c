use std::collections::HashMap;

use base64::engine::general_purpose::URL_SAFE_NO_PAD;
use base64::Engine as _;
use http::{header, HeaderMap};
use huskarl_login::completed_login::{CompletedLogin, IdTokenClaims};
use huskarl_login::cookie::{
    default_cookie_max_age, encode_kid, first_unseal, unseal_with_kid_fallback, UnsealAttempt,
    UnsealStep,
};
use huskarl_login::enrich::ClaimsFn;
use huskarl_login::liveness::{LivenessConfig, LivenessVerdict};
use huskarl_login::metrics::{LivenessFailure, SupersededDeleteResult};
use huskarl_login::session::{SessionDriver, SessionError, SessionErrorKind};
use huskarl_login::session_state::{RefreshToken, Session, SessionState, TokenResponse};
use huskarl_login::store_session::{
    finish_refresh, session_key_in, superseded_record, superseded_step, to_session_err,
    LivenessRead,
    PersistedSession, PersistedSessionState, PointerLoad, RecordLoad, RecordSwap, SaveOutcome,
    SessionKey, SessionNotFound, StoreBackedSessionStore, SupersededStep, UpdateNext, UpdateRun,
    VersionConflict,
    UPDATE_MAX_ATTEMPTS,
};
use huskarl_login::time::{Duration, Timestamp};

// -- Fixtures --

fn now() -> Timestamp {
    Timestamp::epoch().plus(Duration::from_hours(500_000))
}

fn test_store() -> StoreBackedSessionStore {
    StoreBackedSessionStore::new(
        "session".parse().unwrap(),
        "/".parse().unwrap(),
        default_cookie_max_age(),
    )
}

fn test_state() -> SessionState {
    SessionState {
        token_expiry: now().plus(Duration::from_hours(1)),
        refresh_token: None,
        sub: None,
        sid: None,
        created_at: now(),
        expire_at: None,
    }
}

fn test_session() -> PersistedSessionState {
    PersistedSessionState {
        session_key: [7; 16],
        state: test_state(),
        version: 0,
    }
}

fn completed() -> CompletedLogin {
    CompletedLogin::new(
        TokenResponse {
            expires_in: Some(300),
            refresh_token: Some(RefreshToken {
                token: "rt".to_owned(),
                dpop_jkt: None,
            }),
            ..TokenResponse::bearer("access-token", now())
        },
        Some("alice".to_owned()),
        Some(IdTokenClaims {
            sid: Some("sid-1".to_owned()),
            ..IdTokenClaims::default()
        }),
    )
}

fn cookie_header(value: &str) -> HeaderMap {
    let mut headers = HeaderMap::new();
    headers.insert(header::COOKIE, value.parse().unwrap());
    headers
}

/// A store of one versioned record, for driving an update against.
struct Records {
    stored: Option<PersistedSessionState>,
    /// How many compare-and-swaps another writer wins first.
    conflicts: u32,
    swaps: u32,
}

impl Records {
    fn with(session: PersistedSessionState) -> Self {
        Records {
            stored: Some(session),
            conflicts: 0,
            swaps: 0,
        }
    }

    fn compare_and_swap(&mut self, session: &PersistedSessionState, expected: i32) -> RecordSwap {
        self.swaps += 1;
        if self.conflicts > 0 {
            self.conflicts -= 1;
            if let Some(s) = &mut self.stored {
                s.version = s.version.wrapping_add(1);
                s.state.sid = Some("concurrent".to_owned());
            }
        }
        match &self.stored {
            Some(s) if s.version == expected => {
                self.stored = Some(session.clone());
                RecordSwap::Compared(SaveOutcome::Committed)
            }
            _ => RecordSwap::Compared(SaveOutcome::Conflict),
        }
    }

    fn update(
        &mut self,
        mutate: impl Fn(&mut PersistedSessionState) -> Result<(), SessionError>,
    ) -> Result<PersistedSessionState, SessionError> {
        let mut run = UpdateRun::new();
        loop {
            let found = self.stored.clone();
            let load = match &found {
                Some(_) => RecordLoad::Found,
                None => RecordLoad::Missing,
            };
            if let Some(e) = run.after_load(load) {
                return Err(e);
            }
            let mut session = found.unwrap();
            let expected = session.persisted().version;
            let mutated = mutate(&mut session);
            run.stamp_version(&mut session, expected, mutated)?;
            let swap = self.compare_and_swap(&session, expected);
            match run.after_swap(swap) {
                UpdateNext::Commit => return Ok(session),
                UpdateNext::Reload(next) => run = next,
                UpdateNext::Fail(e) => return Err(e),
            }
        }
    }
}

fn set_sub(s: &mut PersistedSessionState) -> Result<(), SessionError> {
    s.state.sub = Some("mine".to_owned());
    Ok(())
}

fn kind_of(r: Result<PersistedSessionState, SessionError>) -> SessionErrorKind {
    match r {
        Ok(_) => panic!("expected an error"),
        Err(e) => e.kind(),
    }
}

// -- Updating --

#[test]
fn update_applies_mutation_and_bumps_version() {
    let mut records = Records::with(test_session());
    let updated = match records.update(set_sub) {
        Ok(s) => s,
        Err(e) => panic!("{}", e.message()),
    };
    assert_eq!(updated.state.sub.as_deref(), Some("mine"));
    assert_eq!(updated.version, 1);
}

#[test]
fn update_retries_and_preserves_concurrent_change() {
    let mut records = Records::with(test_session());
    // A concurrent writer bumps to v1 and sets `sid` just before our first CAS.
    records.conflicts = 1;
    let updated = match records.update(set_sub) {
        Ok(s) => s,
        Err(e) => panic!("{}", e.message()),
    };
    // The first CAS conflicts; the reload + replay keeps BOTH changes.
    assert_eq!(updated.state.sub.as_deref(), Some("mine"));
    assert_eq!(updated.state.sid.as_deref(), Some("concurrent"));
    assert_eq!(updated.version, 2);
}

#[test]
fn update_exhausts_retries_with_version_conflict() {
    let mut records = Records::with(test_session());
    records.conflicts = UPDATE_MAX_ATTEMPTS;
    assert_eq!(kind_of(records.update(set_sub)), SessionErrorKind::Conflict);
    assert_eq!(records.swaps, UPDATE_MAX_ATTEMPTS);
}

#[test]
fn update_survives_all_but_the_last_conflict() {
    let mut records = Records::with(test_session());
    records.conflicts = UPDATE_MAX_ATTEMPTS - 1;
    assert!(records.update(set_sub).is_ok());
    assert_eq!(records.swaps, UPDATE_MAX_ATTEMPTS);
}

#[test]
fn try_update_mutation_error_aborts_without_writing() {
    let mut records = Records::with(test_session());
    let result = records.update(|_| {
        Err(SessionError::new(
            SessionErrorKind::Store,
            "app rule violated",
        ))
    });
    assert_eq!(kind_of(result), SessionErrorKind::Store);
    assert_eq!(records.stored.unwrap().version, 0, "no write on mutation error");
    assert_eq!(records.swaps, 0);
}

#[test]
fn update_missing_session_is_not_found() {
    let mut records = Records {
        stored: None,
        conflicts: 0,
        swaps: 0,
    };
    assert_eq!(kind_of(records.update(set_sub)), SessionErrorKind::Gone);
}

#[test]
fn store_failures_end_an_update_as_unavailable() {
    let e = UpdateRun::new().after_load(RecordLoad::Failed("down".to_owned())).unwrap();
    assert_eq!(e.kind(), SessionErrorKind::Unavailable);
    assert_eq!(e.source(), Some("down"));
    match UpdateRun::new().after_swap(RecordSwap::Failed("down".to_owned())) {
        UpdateNext::Fail(e) => assert!(e.is_retryable()),
        _ => panic!("expected the update to fail"),
    }
    assert_eq!(to_session_err("x").kind(), SessionErrorKind::Unavailable);
}

#[test]
fn version_wraps_at_the_end_of_its_range() {
    let mut session = test_session();
    UpdateRun::new().stamp_version(&mut session, i32::MAX, Ok(())).unwrap();
    assert_eq!(session.version, i32::MIN);
}

#[test]
fn update_errors_say_what_happened() {
    assert_eq!(SessionNotFound.message(), "session not found");
    assert_eq!(
        VersionConflict.message(),
        "session update conflict: the session was modified concurrently"
    );
}

// -- Refreshing --

fn refresh_token_response() -> TokenResponse {
    TokenResponse {
        expires_in: None,
        refresh_token: None,
        ..TokenResponse::bearer("access-token", now())
    }
}

#[test]
fn refresh_save_preserves_concurrent_update() {
    let mut records = Records::with(test_session());
    records.conflicts = 1;
    let mut snapshot = test_session();
    let lifetime = Duration::from_hours(2);
    let tr = refresh_token_response();
    let committed = records.update(|s| {
        s.apply_refresh(&tr, lifetime, now());
        Ok(())
    });
    let cookies = match finish_refresh(&mut snapshot, committed, &tr, lifetime, now()) {
        Ok(cookies) => cookies,
        Err(e) => panic!("{}", e.message()),
    };
    // No Set-Cookie: the pointer cookie is unchanged by a refresh.
    assert!(cookies.is_empty());
    assert_eq!(snapshot.state.sid.as_deref(), Some("concurrent"));
    assert_eq!(snapshot.state.token_expiry, now().plus(lifetime));
    assert_eq!(snapshot.version, 2);
}

#[test]
fn refresh_save_failure_applies_refresh_in_memory() {
    let mut snapshot = test_session();
    let failed = Err(SessionError::from(SessionErrorKind::Conflict));
    let r = finish_refresh(
        &mut snapshot,
        failed,
        &refresh_token_response(),
        Duration::from_hours(2),
        now(),
    );
    assert_eq!(r.unwrap_err().kind(), SessionErrorKind::Conflict);
    assert_eq!(
        snapshot.state.token_expiry,
        now().plus(Duration::from_hours(2))
    );
}

// -- Creating --

#[test]
fn create_freezes_expire_at_from_stamped_policy() {
    let cap = Duration::from_hours(8);
    let mut store = test_store();
    store.apply_session_policy(true, Some(cap), None);
    let completed = completed_with_email("a@example.com");
    let seed = store.create_session(&completed, Duration::from_hours(1), now());
    assert_eq!(seed.expire_at(), Some(seed.created_at().plus(cap)));
    assert_eq!(seed.expire_at(), Some(now().plus(cap)));
    // The frozen deadline is preserved through later writes.
    let updated = match Records::with(seed.clone()).update(|_| Ok(())) {
        Ok(updated) => updated,
        Err(e) => panic!("{}", e.message()),
    };
    assert_eq!(updated.expire_at(), seed.expire_at());
    assert_eq!(updated.version, 1);
}

#[test]
fn create_seeds_the_record_from_the_login() {
    let mut store = test_store();
    store.apply_session_policy(true, Some(Duration::from_hours(8)), None);
    let seed = store.create_session(&completed(), Duration::from_hours(1), now());
    assert_eq!(seed.token_expiry(), now().plus(Duration::from_secs(300)));
    assert_eq!(seed.sub(), Some("alice"));
    assert_eq!(seed.sid(), Some("sid-1"));
    assert_eq!(seed.refresh_token().unwrap().token, "rt");
    assert_eq!(seed.version, 0);
}

#[test]
fn create_under_delegated_lifetime_has_no_expire_at() {
    let mut store = test_store();
    store.apply_session_policy(true, None, None);
    let completed = completed_with_email("a@example.com");
    let seed = store.create_session(&completed, Duration::from_hours(1), now());
    assert_eq!(seed.expire_at(), None);
}

#[test]
fn session_keys_are_fresh_version_seven_uuids() {
    let store = test_store();
    let a = store.create_session(&completed(), Duration::from_hours(1), now()).session_key;
    let b = store.create_session(&completed(), Duration::from_hours(1), now()).session_key;
    assert_ne!(a, b);
    assert_eq!(a[6] >> 4, 7);
    assert_eq!(a[8] >> 6, 2);
}

// -- The pointer cookie --

#[test]
fn pointer_cookie_roundtrips_the_sealed_key() {
    let store = test_store();
    let saved = store.pointer_cookie_headers(&[9; 40], Some("kid-7")).unwrap();
    let pairs: Vec<&str> = saved.headers.iter().map(|s| s.split(';').next().unwrap()).collect();
    match store.read_pointer_cookie(&cookie_header(&pairs.join("; "))) {
        PointerLoad::Unseal { kid, bundle, aad } => {
            assert_eq!(kid.as_deref(), Some("kid-7"));
            assert_eq!(bundle, vec![9; 40]);
            assert_eq!(aad, b"session_ptr:__Host-session".to_vec());
        }
        _ => panic!("expected a bundle to open"),
    }
}

#[test]
fn pointer_cookie_emits_kid_sidecar_when_cipher_has_identity() {
    let saved = test_store().pointer_cookie_headers(&[1; 16], Some("kid-7")).unwrap();
    let expected_value = URL_SAFE_NO_PAD.encode("kid-7".as_bytes());
    assert!(saved
        .headers
        .iter()
        .any(|s| s.starts_with(&format!("__Host-session.kid={expected_value};"))));
    assert_eq!(saved.counter.labels[1].value, "kid-7");
}

#[test]
fn absent_pointer_cookie_is_silent() {
    assert!(matches!(
        test_store().read_pointer_cookie(&HeaderMap::new()),
        PointerLoad::Absent
    ));
}

#[test]
fn malformed_pointer_cookie_is_reported() {
    let store = test_store();
    let headers = cookie_header("__Host-session=not!!valid!!base64");
    assert!(matches!(
        store.read_pointer_cookie(&headers),
        PointerLoad::Malformed { kid: None }
    ));
    let c = store.record_malformed_pointer(None, false);
    assert_eq!(c.labels[2].value, "bad_encoding");
}

#[test]
fn opened_pointer_must_hold_sixteen_bytes() {
    let store = test_store();
    let (key, c) = store.finish_pointer(Some("v5"), true, Some(&vec![3; 16]));
    assert_eq!(key, Some([3; 16]));
    assert_eq!(c.labels[1].value, "v5");
    assert_eq!(c.labels[2].value, "ok");
    let (key, c) = store.finish_pointer(None, false, Some(&vec![0; 17]));
    assert_eq!(key, None);
    assert_eq!(c.labels[2].value, "payload_invalid");
    let (key, c) = store.finish_pointer(Some("bogus"), false, None);
    assert_eq!(key, None);
    assert_eq!(c.labels[1].value, "unknown");
    assert_eq!(c.labels[2].value, "decrypt_failed");
    assert_eq!(session_key_in(&vec![1; 15]), None);
}

#[test]
fn stale_kid_does_not_hide_the_pointer() {
    let store = test_store();
    let value = URL_SAFE_NO_PAD.encode([5u8; 30]);
    let headers = cookie_header(&format!(
        "__Host-session={value}; __Host-session.kid={}",
        encode_kid("v1")
    ));
    match store.read_pointer_cookie(&headers) {
        PointerLoad::Unseal { kid, bundle, .. } => {
            assert_eq!(kid.as_deref(), Some("v1"));
            assert_eq!(bundle, vec![5; 30]);
        }
        _ => panic!("expected a bundle to open"),
    }
}

// -- Deleting --

#[test]
fn delete_clears_pointer_and_kid_sidecar() {
    let plan = match test_store().delete_session(None) {
        Ok(plan) => plan,
        Err(e) => panic!("{}", e.message()),
    };
    assert!(!plan.clear_liveness);
    assert_eq!(
        plan.headers,
        vec![
            "__Host-session=; HttpOnly; SameSite=Lax; Path=/; Secure; Max-Age=0",
            "__Host-session.kid=; HttpOnly; SameSite=Lax; Path=/; Secure; Max-Age=0",
        ]
    );
}

#[test]
fn failed_delete_clears_nothing() {
    match test_store().delete_session(Some("down")) {
        Ok(_) => panic!("expected an error"),
        Err(e) => {
            assert_eq!(e.kind(), SessionErrorKind::Unavailable);
            assert_eq!(e.source(), Some("down"));
        }
    }
}

#[test]
fn superseded_records_are_accounted_for() {
    let failed = RecordLoad::Failed("down".to_owned());
    assert_eq!(
        superseded_step(&failed),
        SupersededStep::Report(SupersededDeleteResult::LoadFailed)
    );
    assert_eq!(
        superseded_step(&RecordLoad::Missing),
        SupersededStep::Report(SupersededDeleteResult::NotFound)
    );
    assert_eq!(superseded_step(&RecordLoad::Found), SupersededStep::Delete);
    let c = test_store().record_superseded(SupersededDeleteResult::NotFound);
    assert_eq!(c.name, "huskarl.session.superseded_delete");
    assert_eq!(c.labels[0].value, "not_found");
    let end = tracking_store().superseded_end(true);
    assert!(end.clear_liveness);
    assert_eq!(end.counter.labels[0].value, "deleted");
    let end = tracking_store().superseded_end(false);
    assert!(!end.clear_liveness);
    assert_eq!(end.counter.labels[0].value, "delete_failed");
    assert!(!test_store().superseded_end(true).clear_liveness);
}

/// The records of a store after a login whose request names `pointed`.
fn login(
    records: &mut HashMap<SessionKey, &'static str>,
    created: SessionKey,
    pointed: Option<SessionKey>,
) {
    records.insert(created, "new");
    if let Some(old) = superseded_record(pointed, &created) {
        let load = match records.get(&old) {
            Some(_) => RecordLoad::Found,
            None => RecordLoad::Missing,
        };
        if superseded_step(&load) == SupersededStep::Delete {
            records.remove(&old);
        }
    }
}

#[test]
fn new_login_deletes_the_record_its_request_names() {
    let mut records = HashMap::from([([1; 16], "old"), ([2; 16], "other")]);
    login(&mut records, [3; 16], Some([1; 16]));
    assert_eq!(records, HashMap::from([([3; 16], "new"), ([2; 16], "other")]));
    // Its own record, a record that is gone, and no pointer at all.
    login(&mut records, [3; 16], Some([3; 16]));
    login(&mut records, [3; 16], Some([1; 16]));
    login(&mut records, [3; 16], None);
    assert_eq!(records, HashMap::from([([3; 16], "new"), ([2; 16], "other")]));
}

// -- Claim mapping --

struct EnrichedStoreSession {
    persisted: PersistedSessionState,
    email: String,
}

impl Session for EnrichedStoreSession {
    fn embedded(&self) -> SessionState {
        self.persisted.state.clone()
    }

    fn agrees_outside_state(&self, other: &Self) -> bool {
        self.same_record(other) && self.email == other.email
    }

    fn same_record(&self, other: &Self) -> bool {
        self.persisted.session_key == other.persisted.session_key
            && self.persisted.version == other.persisted.version
    }

    fn state(&self) -> &SessionState {
        &self.persisted.state
    }

    fn set_state(&mut self, state: SessionState) {
        self.persisted.state = state;
    }
}

impl PersistedSession for EnrichedStoreSession {
    fn record(&self) -> PersistedSessionState {
        self.persisted.clone()
    }

    fn agrees_outside_record(&self, other: &Self) -> bool {
        self.email == other.email
    }

    fn lemma_same_record(&self, _other: &Self) {}

    fn persisted(&self) -> &PersistedSessionState {
        &self.persisted
    }

    fn persisted_mut(&mut self) -> &mut PersistedSessionState {
        &mut self.persisted
    }
}

fn completed_with_email(email: &str) -> CompletedLogin {
    let mut claims = IdTokenClaims::default();
    claims.profile.email = Some(email.to_owned());
    CompletedLogin::new(TokenResponse::bearer("access-token", now()), None, Some(claims))
}

#[test]
fn build_with_claims_maps_claims_and_inserts() {
    let store = test_store();
    let mapper = ClaimsFn(|seed: PersistedSessionState, completed: &CompletedLogin| {
        Ok(EnrichedStoreSession {
            persisted: seed,
            email: completed
                .id_token_claims()
                .and_then(|c| c.profile.email.clone())
                .ok_or_else(|| SessionError::new(SessionErrorKind::Store, "missing email claim"))?,
        })
    });
    let completed = completed_with_email("user@example.com");
    let seed = store.create_session(&completed, Duration::from_hours(1), now());
    let session = match mapper.build_session(seed, &completed) {
        Ok(session) => session,
        Err(_) => panic!("create succeeds"),
    };
    assert_eq!(session.email, "user@example.com");
    // The enriched session reaches the external store, and a pointer cookie is
    // emitted.
    let inserted = HashMap::from([(session.persisted().session_key, session)]);
    assert_eq!(
        inserted.values().next().map(|s| s.email.as_str()),
        Some("user@example.com")
    );
    let cookies = store.pointer_cookie_headers(&[9; 40], None).unwrap().headers;
    assert!(!cookies.is_empty(), "pointer cookie emitted");
}

#[test]
fn store_session_build_with_claims_error_fails_session_creation() {
    let store = test_store();
    let mapper = ClaimsFn(|_seed: PersistedSessionState, _completed: &CompletedLogin| {
        Err::<EnrichedStoreSession, SessionError>(SessionError::new(
            SessionErrorKind::Store,
            "enrichment boom",
        ))
    });
    let completed = completed_with_email("user@example.com");
    let seed = store.create_session(&completed, Duration::from_hours(1), now());
    let result = mapper.build_session(seed, &completed);
    assert!(
        matches!(&result, Err(e)
            if e.kind() == SessionErrorKind::Store
                && e.source().is_some_and(|s| s.contains("enrichment boom"))),
        "enricher error must propagate",
    );
}

#[test]
fn failed_refresh_save_keeps_key_version_and_own_fields() {
    let mut session = EnrichedStoreSession {
        persisted: test_session(),
        email: "user@example.com".to_owned(),
    };
    session.persisted.version = 4;
    let failed = Err(SessionError::from(SessionErrorKind::Conflict));
    let r = finish_refresh(
        &mut session,
        failed,
        &refresh_token_response(),
        Duration::from_hours(2),
        now(),
    );
    assert!(r.is_err());
    assert_eq!(session.persisted.session_key, [7; 16]);
    assert_eq!(session.persisted.version, 4);
    assert_eq!(session.email, "user@example.com");
    assert_eq!(session.token_expiry(), now().plus(Duration::from_hours(2)));
}

#[test]
fn store_defaults_apply() {
    let store = StoreBackedSessionStore::with_defaults(
        "session".parse().unwrap(),
        "/".parse().unwrap(),
    );
    let saved = store.pointer_cookie_headers(&[1; 16], None).unwrap();
    assert!(saved.headers[0].ends_with("Secure; Max-Age=34560000"), "{}", saved.headers[0]);
    assert!(!store.tracks_liveness());
}

// -- Liveness --

fn tracking_store() -> StoreBackedSessionStore {
    test_store().with_liveness(LivenessConfig {
        idle_timeout: Some(Duration::from_hours(24)),
        touch_min_interval: Duration::from_hours(1),
    })
}

fn hours_ago(h: u64) -> Timestamp {
    Timestamp {
        nanos: now().nanos - Duration::from_hours(h).nanos as i128,
    }
}

#[test]
fn without_liveness_is_untracked() {
    let plan = test_store().check_liveness(
        LivenessRead::Entry(None),
        now(),
        now(),
        true,
        None,
    );
    assert_eq!(plan.verdict, LivenessVerdict::Untracked);
    assert_eq!(plan.touch, None);
    assert!(!test_store().tracks_liveness());
    assert!(tracking_store().tracks_liveness());
}

#[test]
fn liveness_active_and_records_activity_on_check() {
    let expiry = now().plus(Duration::from_hours(1));
    let plan = tracking_store().check_liveness(LivenessRead::Entry(None), expiry, now(), true, None);
    assert_eq!(plan.verdict, LivenessVerdict::Active);
    assert_eq!(
        plan.touch.unwrap().expire_at,
        Some(expiry.plus(Duration::from_hours(24)))
    );
    // A second request inside the throttle window does not write.
    let again = tracking_store().check_liveness(
        LivenessRead::Entry(Some(now())),
        expiry,
        now().plus(Duration::from_mins(10)),
        true,
        None,
    );
    assert_eq!(again.verdict, LivenessVerdict::Active);
    assert_eq!(again.touch, None);
}

#[test]
fn liveness_does_not_record_when_not_activity() {
    let plan = tracking_store().check_liveness(LivenessRead::Entry(None), now(), now(), false, None);
    assert_eq!(plan.verdict, LivenessVerdict::Active);
    assert_eq!(plan.touch, None);
}

#[test]
fn liveness_idle_past_timeout_expires_and_does_not_record() {
    let config = LivenessConfig::new(Some(Duration::from_secs(60)), None).unwrap();
    let stale = Timestamp {
        nanos: now().nanos - Duration::from_secs(120).nanos as i128,
    };
    let plan = test_store().with_liveness(config).check_liveness(
        LivenessRead::Entry(Some(stale)),
        now(),
        now(),
        true,
        None,
    );
    assert_eq!(plan.verdict, LivenessVerdict::Expired);
    // An expired session is being torn down; no activity is recorded.
    assert_eq!(plan.touch, None, "expired check must not touch");
}

#[test]
fn liveness_read_failure_fails_open() {
    // A short idle timeout that *would* expire if the read succeeded.
    let config = LivenessConfig::new(Some(Duration::from_secs(1)), None).unwrap();
    let store = test_store().with_liveness(config);
    let plan = store.check_liveness(LivenessRead::Failed, now(), now(), true, None);
    assert_eq!(plan.verdict, LivenessVerdict::Active);
    assert_eq!(plan.touch, None);
    let c = store.record_liveness_failure(LivenessFailure::Read);
    assert_eq!(c.name, "huskarl.session.liveness_failure");
    assert_eq!(c.labels[0].value, "read");
}

#[test]
fn liveness_cleared_on_delete() {
    match tracking_store().delete_session(None) {
        Ok(plan) => assert!(plan.clear_liveness),
        Err(e) => panic!("{}", e.message()),
    }
}

#[test]
fn version_returns_only_after_its_whole_range() {
    let mut session = test_session();
    let loaded = session.version;
    for _ in 0..1000 {
        let expected = session.version;
        UpdateRun::new().stamp_version(&mut session, expected, Ok(())).unwrap();
        assert_ne!(session.version, loaded);
    }
    assert_eq!(session.version, 1000);
}

#[test]
fn try_update_ok_commits_like_update() {
    let updated = match Records::with(test_session()).update(set_sub) {
        Ok(updated) => updated,
        Err(e) => panic!("{}", e.message()),
    };
    assert_eq!(updated.state.sub.as_deref(), Some("mine"));
    assert_eq!(updated.version, 1);
}

#[test]
fn version_stamp_keeps_the_refreshed_tokens() {
    let mut session = EnrichedStoreSession {
        persisted: test_session(),
        email: "user@example.com".to_owned(),
    };
    session.apply_refresh(&refresh_token_response(), Duration::from_hours(2), now());
    UpdateRun::new().stamp_version(&mut session, 0, Ok(())).unwrap();
    assert_eq!(session.token_expiry(), now().plus(Duration::from_hours(2)));
    assert_eq!(session.persisted().version, 1);
    assert_eq!(session.email, "user@example.com");
}

// -- What the pointer cookie counts --

/// The request that presents what a save set.
fn request_of(headers: &[String]) -> HeaderMap {
    let pairs: Vec<&str> = headers
        .iter()
        .map(|s| s.split(';').next().unwrap())
        .filter(|s| !s.ends_with('='))
        .collect();
    cookie_header(&pairs.join("; "))
}

/// The key identity and outcome a read of the pointer cookie counts, given the
/// plaintext it opens to and the identity of the configured key.
fn read_pointer(
    request: &HeaderMap,
    plaintext: Option<Vec<u8>>,
    configured: Option<&str>,
) -> Option<(String, String)> {
    let store = test_store();
    let counter = match store.read_pointer_cookie(request) {
        PointerLoad::Absent => return None,
        PointerLoad::Malformed { kid } => {
            store.record_malformed_pointer(kid.as_deref(), kid.as_deref() == configured)
        }
        PointerLoad::Unseal { kid, .. } => {
            let matches_key = kid.as_deref() == configured;
            store.finish_pointer(kid.as_deref(), matches_key, plaintext.as_ref()).1
        }
    };
    assert_eq!(counter.name, "huskarl.session_cookie.decrypt");
    Some((counter.labels[1].value.clone(), counter.labels[2].value.clone()))
}

fn counts(kid: &str, outcome: &str) -> Option<(String, String)> {
    Some((kid.to_owned(), outcome.to_owned()))
}

#[test]
fn metrics_pointer_cookie_records_encrypt() {
    let saved = test_store().pointer_cookie_headers(&[9; 40], None).unwrap();
    assert_eq!(saved.counter.name, "huskarl.session_cookie.encrypt");
    assert_eq!(saved.counter.labels[1].value, "none");
}

#[test]
fn metrics_pointer_cookie_records_kid_when_cipher_has_identity() {
    let saved = test_store().pointer_cookie_headers(&[9; 40], Some("v5")).unwrap();
    assert_eq!(saved.counter.labels[1].value, "v5");
}

#[test]
fn metrics_read_pointer_cookie_absent_is_silent() {
    assert_eq!(read_pointer(&HeaderMap::new(), None, None), None);
}

#[test]
fn metrics_read_pointer_cookie_bad_encoding() {
    let request = cookie_header("__Host-session=not!!valid!!base64");
    assert_eq!(read_pointer(&request, None, None), counts("none", "bad_encoding"));
}

#[test]
fn metrics_read_pointer_cookie_tampered_records_decrypt_failed() {
    let request = cookie_header("__Host-session=AAAAAAAAAAAA");
    assert_eq!(read_pointer(&request, None, None), counts("none", "decrypt_failed"));
}

#[test]
fn metrics_read_pointer_cookie_payload_invalid_when_not_16_bytes() {
    let saved = test_store().pointer_cookie_headers(&[9; 40], None).unwrap();
    let request = request_of(&saved.headers);
    assert_eq!(
        read_pointer(&request, Some(vec![0; 17]), None),
        counts("none", "payload_invalid")
    );
}

#[test]
fn metrics_read_pointer_cookie_success_records_ok_with_kid() {
    let saved = test_store().pointer_cookie_headers(&[9; 40], Some("v5")).unwrap();
    let request = request_of(&saved.headers);
    assert_eq!(
        read_pointer(&request, Some(vec![7; 16]), Some("v5")),
        counts("v5", "ok")
    );
}

#[test]
fn metrics_read_pointer_cookie_forged_kid_is_normalized_to_unknown() {
    let saved = test_store().pointer_cookie_headers(&[9; 40], Some("v5")).unwrap();
    let pointer = saved.headers[0].split(';').next().unwrap();
    let forged = encode_kid("totally-bogus");
    let request = cookie_header(&format!("{pointer}; __Host-session.kid={forged}"));
    assert_eq!(
        read_pointer(&request, Some(vec![7; 16]), Some("v5")),
        counts("unknown", "ok")
    );
}

// -- Opening what a set of keys sealed --

/// Stands for sealing under a key: its identity, the associated data and the
/// plaintext.
fn seal_under(key: &str, plaintext: &[u8], aad: &[u8]) -> Vec<u8> {
    [key.as_bytes(), &[0], aad, &[0], plaintext].concat()
}

fn open_under(key: &str, bundle: &[u8], aad: &[u8]) -> Option<Vec<u8>> {
    bundle.strip_prefix(seal_under(key, &[], aad).as_slice()).map(<[u8]>::to_vec)
}

/// Stands for unsealing under the keys `v1` and `v2`. A hinted key is the only
/// one tried while the hint is followed.
fn unseal(hint: Option<&str>, bundle: &[u8], aad: &[u8]) -> Option<Vec<u8>> {
    let mut attempt = first_unseal(hint.is_some());
    loop {
        let opened = ["v1", "v2"]
            .iter()
            .filter(|key| attempt == UnsealAttempt::AllKeys || hint == Some(**key))
            .find_map(|key| open_under(key, bundle, aad));
        match unseal_with_kid_fallback(attempt, opened.is_some()) {
            UnsealStep::Authentic => return opened,
            UnsealStep::Try(next) => attempt = next,
            UnsealStep::Failed => return None,
        }
    }
}

/// The key a request's pointer cookie names, if it opens.
fn pointer_key(store: &StoreBackedSessionStore, request: &HeaderMap) -> Option<SessionKey> {
    match store.read_pointer_cookie(request) {
        PointerLoad::Unseal { kid, bundle, aad } => {
            session_key_in(&unseal(kid.as_deref(), &bundle, &aad)?)
        }
        _ => None,
    }
}

#[test]
fn pointer_cookie_roundtrips_uuid() {
    let store = test_store();
    let original_key = test_session().session_key;
    let sealed = seal_under("v2", &original_key, &store.pointer_aad());
    let saved = store.pointer_cookie_headers(&sealed, None).unwrap();
    assert_eq!(pointer_key(&store, &request_of(&saved.headers)), Some(original_key));
}

#[test]
fn read_pointer_cookie_falls_back_when_kid_names_wrong_configured_key() {
    let store = test_store();
    let original_key = test_session().session_key;
    let sealed = seal_under("v2", &original_key, &store.pointer_aad());
    let saved = store.pointer_cookie_headers(&sealed, Some("v2")).unwrap();
    // The sidecar names "v1" while the pointer was sealed under "v2": the kid
    // is a hint, not a filter, so the read must still succeed.
    let pointer = saved.headers[0].split(';').next().unwrap();
    let wrong = encode_kid("v1");
    let request = cookie_header(&format!("{pointer}; __Host-session.kid={wrong}"));
    assert_eq!(pointer_key(&store, &request), Some(original_key));
}
