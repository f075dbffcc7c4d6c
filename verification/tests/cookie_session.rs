use std::collections::HashMap;

use base64::engine::general_purpose::URL_SAFE_NO_PAD;
use base64::Engine as _;
use http::{header, HeaderMap};
use huskarl_login::completed_login::{CompletedLogin, IdTokenClaims};
use huskarl_login::config::{InvalidRoutePath, RoutePath};
use huskarl_login::cookie::{
    default_cookie_max_age, encode_kid, first_unseal, get_kid_cookie, unseal_with_kid_fallback,
    CookieName, InvalidCookieName, UnsealAttempt, UnsealStep,
};
use huskarl_login::cookie_session::{
    reassemble_chunks, split_into_chunks, CookieLoad, CookieSessionStore, CHUNK_SIZE,
    DEFAULT_MAX_CHUNKS,
};
use huskarl_login::enrich::ClaimsFn;
use huskarl_login::session::{SessionDriver, SessionError, SessionErrorKind};
use huskarl_login::session_state::{Session, SessionState, TokenResponse};
use huskarl_login::time::{Duration, Timestamp};

// -- Fixtures --

fn store_with(path: &str, max_chunks: usize) -> CookieSessionStore {
    CookieSessionStore::new(
        "huskarl_session".parse().unwrap(),
        path.parse().unwrap(),
        default_cookie_max_age(),
        max_chunks,
    )
}

fn test_store() -> CookieSessionStore {
    store_with("/", DEFAULT_MAX_CHUNKS)
}

/// Bytes standing for a sealed session of the given size.
fn bundle(len: usize) -> Vec<u8> {
    (0..len).map(|i| (i * 7 + i / 251) as u8).collect()
}

/// Builds a request `Cookie:` header from the `Set-Cookie` values a save
/// produced, stripping attributes.
fn request_cookies_from_set_cookies(set_cookies: &[String]) -> HeaderMap {
    let mut headers = HeaderMap::new();
    let mut pairs = Vec::new();
    for s in set_cookies {
        // Skip Max-Age=0 clears (empty value).
        let pair = s.split(';').next().unwrap();
        let (_name, value) = pair.split_once('=').unwrap();
        if !value.is_empty() {
            pairs.push(pair.to_owned());
        }
    }
    if !pairs.is_empty() {
        headers.insert(header::COOKIE, pairs.join("; ").parse().unwrap());
    }
    headers
}

/// A request `Cookie:` header carrying chunk slots `.0` through `.{n-1}`.
fn request_with_chunk_slots(n: usize) -> HeaderMap {
    let mut headers = HeaderMap::new();
    if n > 0 {
        let pairs: Vec<String> = (0..n)
            .map(|i| format!("__Host-huskarl_session.{i}=x"))
            .collect();
        headers.insert(header::COOKIE, pairs.join("; ").parse().unwrap());
    }
    headers
}

fn cookie_header(value: &str) -> HeaderMap {
    let mut headers = HeaderMap::new();
    headers.insert(header::COOKIE, value.parse().unwrap());
    headers
}

fn found_bundle(load: CookieLoad) -> Vec<u8> {
    match load {
        CookieLoad::Unseal { bundle, .. } => bundle,
        _ => panic!("expected a bundle to open"),
    }
}

// -- Names and paths --

#[test]
fn cookie_path_rejects_unsafe_path() {
    // The cookie_path lands in a Set-Cookie `Path` attribute, so a `;`
    // (or control char) must be rejected when the `RoutePath` is built —
    // the store only accepts an already-validated `RoutePath`.
    let result = "/bad;inject".parse::<RoutePath>();
    assert!(matches!(result, Err(InvalidRoutePath { .. })));
}

#[test]
fn cookie_name_rejects_unsafe_name() {
    // The cookie name is interpolated into `Set-Cookie` as `{name}=...`, so
    // a `;` (or any non-token char) must be rejected when the `CookieName`
    // is built — the store only accepts an already-validated `CookieName`.
    let result = "bad;name".parse::<CookieName>();
    assert!(matches!(result, Err(InvalidCookieName { .. })));
}

// -- Cookie attributes --

#[test]
fn save_emits_chunk_zero_with_raw_base64_value() {
    let saved = test_store().save_session(&bundle(90), None, &HeaderMap::new()).unwrap();
    let chunk0 = saved.headers[0].as_str();
    assert!(
        chunk0.starts_with("__Host-huskarl_session.0="),
        "got: {chunk0}"
    );
    let value = chunk0.split('=').nth(1).unwrap().split(';').next().unwrap();
    assert_eq!(value, URL_SAFE_NO_PAD.encode(bundle(90)));
}

#[test]
fn secure_subpath_store_emits_secure_prefixed_cookies() {
    // A sub-path scope can't carry `__Host-` (browsers require `Path=/`),
    // but `__Secure-` is valid there — the store derives it so sub-path
    // deployments aren't left with an unprefixed session cookie.
    let store = store_with("/app", DEFAULT_MAX_CHUNKS);
    let saved = store.save_session(&bundle(90), None, &HeaderMap::new()).unwrap();
    let chunk0 = saved.headers[0].as_str();
    assert!(
        chunk0.starts_with("__Secure-huskarl_session.0="),
        "got: {chunk0}"
    );
    assert!(chunk0.contains("Path=/app"));
}

#[test]
fn save_sets_security_attributes() {
    let saved = test_store().save_session(&bundle(90), None, &HeaderMap::new()).unwrap();
    let chunk0 = saved.headers[0].as_str();
    assert!(chunk0.contains("HttpOnly"));
    assert!(chunk0.contains("SameSite=Lax"));
    assert!(chunk0.contains("Secure"));
    assert!(chunk0.contains("Path=/"));
}

#[test]
fn save_emits_no_chunk_clears_when_request_has_none() {
    let saved = test_store().save_session(&bundle(90), None, &HeaderMap::new()).unwrap();
    let chunk_clears = saved
        .headers
        .iter()
        .filter(|s| {
            s.contains("__Host-huskarl_session.")
                && !s.starts_with("__Host-huskarl_session.kid=")
                && s.contains("Max-Age=0")
        })
        .count();
    assert_eq!(
        chunk_clears, 0,
        "no chunk slots to clear without prior chunks"
    );
}

#[test]
fn save_emits_kid_set_when_cipher_has_identity() {
    let kid = "arn:aws:kms:us-east-1:111:key/abc";
    let saved = test_store().save_session(&bundle(90), Some(kid), &HeaderMap::new()).unwrap();
    let expected = format!("__Host-huskarl_session.kid={};", encode_kid(kid));
    assert!(saved.headers.iter().any(|s| s.starts_with(&expected)));
}

#[test]
fn save_emits_kid_clear_when_cipher_has_no_identity() {
    let saved = test_store().save_session(&bundle(90), None, &HeaderMap::new()).unwrap();
    assert!(saved
        .headers
        .iter()
        .any(|s| s.starts_with("__Host-huskarl_session.kid=;") && s.contains("Max-Age=0")));
}

#[test]
fn save_clears_only_request_chunks_above_new_count() {
    // Browser sent chunks .0 through .4 from a prior larger session.
    // New save fits in a single chunk → must emit clears for slots .1-.4,
    // and NOT clear slot .0 (it's about to be overwritten with new data).
    let req = request_with_chunk_slots(5);
    let saved = test_store().save_session(&bundle(90), None, &req).unwrap();
    for stale in 1..5 {
        let cleared = saved.headers.iter().any(|s| {
            s.starts_with(&format!("__Host-huskarl_session.{stale}=;")) && s.contains("Max-Age=0")
        });
        assert!(cleared, "expected clear for stale slot .{stale}");
    }
    let zero_clear = saved
        .headers
        .iter()
        .any(|s| s.starts_with("__Host-huskarl_session.0=;") && s.contains("Max-Age=0"));
    assert!(
        !zero_clear,
        "slot .0 must not be cleared — it's overwritten with new data",
    );
}

#[test]
fn stamped_policy_reaches_the_cookies() {
    let mut store = test_store();
    store.apply_session_policy(false, Some(Duration::from_hours(1)), Some("main"));
    assert_eq!(store.cookie_name(), "huskarl_session");
    assert_eq!(store.max_lifetime(), Some(Duration::from_hours(1)));
    assert_eq!(store.session_aad(), b"session:huskarl_session".to_vec());
    let saved = store.save_session(&bundle(3), None, &HeaderMap::new()).unwrap();
    assert_eq!(
        saved.headers,
        vec![
            "huskarl_session.0=AAcO; HttpOnly; SameSite=Lax; Path=/; Max-Age=3600",
            "huskarl_session.kid=; HttpOnly; SameSite=Lax; Path=/; Max-Age=0",
        ]
    );
    assert_eq!(saved.counter.name, "huskarl.session_cookie.encrypt");
    assert_eq!(saved.counter.labels[2].key, "name");
    assert_eq!(saved.counter.labels[2].value, "main");
}

// -- The chunk budget --

#[test]
fn save_rejects_session_over_default_chunk_budget() {
    let e = match test_store().save_session(&bundle(9000), None, &HeaderMap::new()) {
        Ok(_) => panic!("oversized session must fail the save"),
        Err(e) => e,
    };
    assert_eq!(e.kind(), SessionErrorKind::Store);
    assert_eq!(
        e.source().unwrap(),
        "serialized session needs 4 cookie chunks (12000 bytes encoded), over the configured \
         max_chunks of 2; oversized cookies can exceed request-header limits and lock the client \
         out — shrink the session payload or use a store-backed session"
    );
}

#[test]
fn save_allows_larger_sessions_when_budget_is_raised() {
    let store = store_with("/", 4);
    let saved = match store.save_session(&bundle(9000), None, &HeaderMap::new()) {
        Ok(saved) => saved,
        Err(_) => panic!("raised budget accepts 4 chunks"),
    };
    let chunk_sets = saved
        .headers
        .iter()
        .filter(|s| {
            s.starts_with("__Host-huskarl_session.") && !s.starts_with("__Host-huskarl_session.kid")
        })
        .count();
    assert_eq!(chunk_sets, 4);
    // The large payload still round-trips.
    let req = request_cookies_from_set_cookies(&saved.headers);
    assert_eq!(found_bundle(store.load_session(&req)), bundle(9000));
}

#[test]
fn max_chunks_zero_is_treated_as_one() {
    // A small session (one chunk) still saves under the clamped budget.
    let saved = match store_with("/", 0).save_session(&bundle(90), None, &HeaderMap::new()) {
        Ok(saved) => saved,
        Err(_) => panic!("single-chunk session saves under clamped budget"),
    };
    assert!(saved.headers.iter().any(|s| s.starts_with("__Host-huskarl_session.0=")));
}

// -- Loading --

#[test]
fn load_returns_none_when_no_cookies() {
    assert!(matches!(
        test_store().load_session(&HeaderMap::new()),
        CookieLoad::Absent
    ));
}

#[test]
fn load_returns_none_for_unrelated_cookies() {
    let headers = cookie_header("other=value; another=42");
    assert!(matches!(test_store().load_session(&headers), CookieLoad::Absent));
}

#[test]
fn load_stops_at_a_missing_continuation_chunk() {
    // Gap between chunks 0 and 2: reassembly stops at chunk 1's gap,
    // producing only chunk 0's data.
    let headers = cookie_header("__Host-huskarl_session.0=AAAA; __Host-huskarl_session.2=BBBB");
    assert_eq!(found_bundle(test_store().load_session(&headers)), vec![0, 0, 0]);
}

#[test]
fn load_reports_a_value_that_is_no_base64() {
    let headers = cookie_header("__Host-huskarl_session.0=not!!valid!!base64");
    let store = test_store();
    let kid = match store.load_session(&headers) {
        CookieLoad::Malformed { kid } => kid,
        _ => panic!("expected a malformed cookie"),
    };
    let c = store.record_malformed_load(kid.as_deref(), false);
    assert_eq!(c.labels[1].value, "none");
    assert_eq!(c.labels[2].value, "bad_encoding");
}

#[test]
fn save_then_load_roundtrips_with_kid_sidecar() {
    let store = test_store();
    let saved = store.save_session(&bundle(5000), Some("test-kid"), &HeaderMap::new()).unwrap();
    let req = request_cookies_from_set_cookies(&saved.headers);
    // The kid sidecar made it into the simulated request.
    assert_eq!(get_kid_cookie(&req, "__Host-huskarl_session").as_deref(), Some("test-kid"));
    match store.load_session(&req) {
        CookieLoad::Unseal { kid, bundle: sealed, aad } => {
            assert_eq!(kid.as_deref(), Some("test-kid"));
            assert_eq!(sealed, bundle(5000));
            assert_eq!(aad, b"session:__Host-huskarl_session".to_vec());
        }
        _ => panic!("expected a bundle to open"),
    }
}

#[test]
fn shrunk_session_reads_back_over_stale_slots() {
    // The browser holds three chunks; the new session needs one.
    let store = store_with("/", 4);
    let old = store.save_session(&bundle(8000), None, &HeaderMap::new()).unwrap();
    let before = request_cookies_from_set_cookies(&old.headers);
    let new = store.save_session(&bundle(10), None, &before).unwrap();
    // What the browser keeps: sets and clears applied in order.
    let mut jar: Vec<(String, String)> = Vec::new();
    for s in old.headers.iter().chain(new.headers.iter()) {
        let (name, value) = s.split(';').next().unwrap().split_once('=').unwrap();
        jar.retain(|(n, _)| n != name);
        if !s.contains("Max-Age=0") {
            jar.push((name.to_owned(), value.to_owned()));
        }
    }
    let pairs: Vec<String> = jar.iter().map(|(n, v)| format!("{n}={v}")).collect();
    let after = cookie_header(&pairs.join("; "));
    assert_eq!(found_bundle(store.load_session(&after)), bundle(10));
}

// -- Deleting --

#[test]
fn delete_emits_clears_for_every_chunk_slot_the_request_sent() {
    let clears = test_store().delete_headers(&request_with_chunk_slots(5));
    // Kid sidecar + 5 chunk slots (.0 through .4).
    assert_eq!(clears.len(), 6);
    for c in &clears {
        assert!(c.contains("Max-Age=0"));
    }
    for i in 0..5 {
        let found = clears
            .iter()
            .any(|s| s.starts_with(&format!("__Host-huskarl_session.{i}=;")));
        assert!(found, "expected clear for slot .{i}");
    }
    let kid_cleared = clears
        .iter()
        .any(|s| s.starts_with("__Host-huskarl_session.kid=;"));
    assert!(kid_cleared, "expected kid sidecar clear");
}

#[test]
fn delete_emits_only_kid_clear_when_request_has_no_chunks() {
    let clears = test_store().delete_headers(&HeaderMap::new());
    assert_eq!(clears.len(), 1);
    assert!(clears[0].starts_with("__Host-huskarl_session.kid=;"));
    assert!(clears[0].contains("Max-Age=0"));
}

// -- parse_chunk_pair --

#[test]
fn parse_chunk_pair_matches_indexed_cookie() {
    assert_eq!(
        test_store().parse_chunk_pair("__Host-huskarl_session.3=abc"),
        Some((3, "abc".to_owned()))
    );
}

#[test]
fn parse_chunk_pair_rejects_unrelated_cookie() {
    assert_eq!(test_store().parse_chunk_pair("other=value"), None);
}

#[test]
fn parse_chunk_pair_rejects_base_name_without_index() {
    // "__Host-huskarl_session=foo" — missing `.N` suffix.
    assert_eq!(
        test_store().parse_chunk_pair("__Host-huskarl_session=foo"),
        None
    );
}

#[test]
fn parse_chunk_pair_rejects_non_numeric_suffix() {
    assert_eq!(
        test_store().parse_chunk_pair("__Host-huskarl_session.abc=foo"),
        None
    );
    assert_eq!(
        test_store().parse_chunk_pair("__Host-huskarl_session.kid=foo"),
        None
    );
}

#[test]
fn parse_chunk_pair_accepts_any_index_within_usize() {
    let store = test_store();
    assert_eq!(
        store.parse_chunk_pair("__Host-huskarl_session.42=foo"),
        Some((42, "foo".to_owned()))
    );
    assert_eq!(
        store.parse_chunk_pair("__Host-huskarl_session.1000000=foo"),
        Some((1_000_000, "foo".to_owned()))
    );
    assert_eq!(
        store.parse_chunk_pair("__Host-huskarl_session.99999999999999999999999=foo"),
        None
    );
}

#[test]
fn chunk_names_and_values_are_trimmed() {
    let store = test_store();
    assert_eq!(
        store.parse_chunk_pair(" __Host-huskarl_session.1 = abc "),
        Some((1, "abc".to_owned()))
    );
    assert_eq!(store.parse_chunk_index(" __Host-huskarl_session.7 "), Some(7));
}

// -- Chunks --

#[test]
fn reassemble_returns_none_when_chunk_zero_missing() {
    let mut chunks = HashMap::new();
    chunks.insert(1, "c1".to_owned());
    assert!(reassemble_chunks(&chunks).is_none());
}

#[test]
fn reassemble_concatenates_contiguous_chunks() {
    let mut chunks = HashMap::new();
    chunks.insert(0, "c0".to_owned());
    chunks.insert(1, "c1".to_owned());
    chunks.insert(2, "c2".to_owned());
    assert_eq!(reassemble_chunks(&chunks).as_deref(), Some("c0c1c2"));
}

#[test]
fn reassemble_stops_at_first_gap() {
    // Chunks 0, 1 present; 2 missing; 3 present. The reader stops at 2,
    // dropping the orphan chunk 3 (likely a stale leftover from an older
    // larger session). AEAD on the truncated payload will then fail.
    let mut chunks = HashMap::new();
    chunks.insert(0, "c0".to_owned());
    chunks.insert(1, "c1".to_owned());
    chunks.insert(3, "stale".to_owned());
    assert_eq!(reassemble_chunks(&chunks).as_deref(), Some("c0c1"));
}

#[test]
fn reassemble_handles_many_chunks() {
    let mut chunks = HashMap::new();
    for i in 0..64 {
        chunks.insert(i, format!("c{i}"));
    }
    let out = reassemble_chunks(&chunks).expect("contiguous chunks reassemble");
    assert!(out.starts_with("c0"));
    assert!(out.ends_with("c63"));
}

#[test]
fn chunks_are_full_but_for_the_last() {
    assert!(split_into_chunks("").is_empty());
    let text = "a".repeat(2 * CHUNK_SIZE);
    assert_eq!(split_into_chunks(&text).len(), 2);
    let text = format!("{text}b");
    let chunks = split_into_chunks(&text);
    assert_eq!(chunks.len(), 3);
    assert_eq!(chunks[0].len(), CHUNK_SIZE);
    assert_eq!(chunks[2], "b");
    assert_eq!(chunks.concat(), text);
}

#[test]
fn load_ends_with_the_session_or_the_reason_there_is_none() {
    let store = test_store();
    for (opened, session, outcome) in [
        (None, None, "decrypt_failed"),
        (Some(None), None, "payload_invalid"),
        (Some(Some("session")), Some("session"), "ok"),
    ] {
        let (found, c) = store.finish_load(Some("forged"), false, opened);
        assert_eq!(found, session);
        assert_eq!(c.labels[1].value, "unknown");
        assert_eq!(c.labels[2].value, outcome);
    }
}

#[test]
fn saved_session_is_found_whatever_the_kid_sidecar_says() {
    let store = test_store();
    let saved = store.save_session(&bundle(5000), Some("v2"), &HeaderMap::new()).unwrap();
    let chunks: Vec<&str> = saved
        .headers
        .iter()
        .map(|s| s.split(';').next().unwrap())
        .filter(|s| !s.contains(".kid="))
        .collect();
    let chunks = chunks.join("; ");
    for (sidecar, expected) in [
        ("", None),
        ("; __Host-huskarl_session.kid=!garbage!", None),
        ("; __Host-huskarl_session.kid=djE", Some("v1")),
    ] {
        match store.load_session(&cookie_header(&format!("{chunks}{sidecar}"))) {
            CookieLoad::Unseal { kid, bundle: sealed, .. } => {
                assert_eq!(kid.as_deref(), expected);
                assert_eq!(sealed, bundle(5000));
            }
            _ => panic!("expected a bundle to open"),
        }
    }
}

#[test]
fn chunk_names_are_trimmed_of_all_white_space() {
    let store = test_store();
    assert_eq!(store.parse_chunk_index("\n__Host-huskarl_session.0\u{3000}"), Some(0));
    assert_eq!(
        store.parse_chunk_pair("\u{a0}__Host-huskarl_session.1 = v\r\n"),
        Some((1, "v".to_owned()))
    );
    // A zero-width space is no white space.
    assert_eq!(store.parse_chunk_index("\u{200b}__Host-huskarl_session.0"), None);
}

#[test]
fn cookie_store_defaults_apply() {
    let store = CookieSessionStore::with_defaults(
        "huskarl_session".parse().unwrap(),
        "/".parse().unwrap(),
    );
    let saved = store.save_session(&bundle(10), None, &HeaderMap::new()).unwrap();
    assert!(saved.headers[0].ends_with("Max-Age=34560000"), "{}", saved.headers[0]);
    assert!(store.save_session(&bundle(5600), None, &HeaderMap::new()).is_ok());
    assert!(store.save_session(&bundle(5800), None, &HeaderMap::new()).is_err());
}

// -- Claim mapping --

struct EnrichedSession {
    state: SessionState,
    email: String,
}

impl Session for EnrichedSession {
    fn embedded(&self) -> SessionState {
        self.state.clone()
    }

    fn agrees_outside_state(&self, other: &Self) -> bool {
        self.email == other.email
    }

    fn same_record(&self, _other: &Self) -> bool {
        true
    }

    fn state(&self) -> &SessionState {
        &self.state
    }

    fn set_state(&mut self, state: SessionState) {
        self.state = state;
    }
}

/// A completed login carrying an `email` profile claim.
fn completed_with_email(email: &str) -> CompletedLogin {
    let mut claims = IdTokenClaims::default();
    claims.profile.email = Some(email.to_owned());
    CompletedLogin::new(
        TokenResponse::bearer("access-token", Timestamp::epoch()),
        None,
        Some(claims),
    )
}

fn seed_of(completed: &CompletedLogin) -> SessionState {
    test_store().seed(completed, Duration::from_hours(1), Timestamp::epoch())
}

#[test]
fn seed_freezes_the_stamped_cap() {
    let completed = completed_with_email("user@example.com");
    assert_eq!(seed_of(&completed).expire_at, None);
    let mut store = test_store();
    store.apply_session_policy(true, Some(Duration::from_hours(8)), None);
    let seed = store.seed(&completed, Duration::from_hours(1), Timestamp::epoch());
    assert_eq!(seed.expire_at, Some(Timestamp::epoch().plus(Duration::from_hours(8))));
}

fn email_of(
    state: SessionState,
    completed: &CompletedLogin,
) -> Result<EnrichedSession, SessionError> {
    Ok(EnrichedSession {
        state,
        email: completed
            .id_token_claims()
            .and_then(|c| c.profile.email.clone())
            .ok_or_else(|| SessionError::new(SessionErrorKind::Store, "missing email claim"))?,
    })
}

#[test]
fn build_with_claims_maps_id_token_claims_into_session() {
    let completed = completed_with_email("user@example.com");
    let session = match ClaimsFn(email_of).build_session(seed_of(&completed), &completed) {
        Ok(session) => session,
        Err(_) => panic!("create succeeds"),
    };
    assert_eq!(session.email, "user@example.com");
    assert_eq!(session.token_expiry(), Timestamp::epoch().plus(Duration::from_hours(1)));

    // The mapped session round-trips through the cookie the same as any other
    // payload; its e-mail address stands for it here.
    let store = test_store();
    let saved =
        store.save_session(session.email.as_bytes(), None, &HeaderMap::new()).unwrap();
    let req = request_cookies_from_set_cookies(&saved.headers);
    let opened = String::from_utf8(found_bundle(store.load_session(&req))).ok();
    let (loaded, _) = store.finish_load(None, false, Some(opened));
    assert_eq!(loaded.as_deref(), Some("user@example.com"));
}

#[test]
fn missing_claim_fails_session_creation() {
    let anonymous = CompletedLogin::new(
        TokenResponse::bearer("access-token", Timestamp::epoch()),
        None,
        None,
    );
    match ClaimsFn(email_of).build_session(seed_of(&anonymous), &anonymous) {
        Ok(_) => panic!("a missing claim must fail"),
        Err(e) => assert_eq!(e.source(), Some("missing email claim")),
    }
}

#[test]
fn cookie_session_build_with_claims_error_fails_session_creation() {
    let mapper = ClaimsFn(|_state: SessionState, _completed: &CompletedLogin| {
        Err::<EnrichedSession, SessionError>(SessionError::new(
            SessionErrorKind::Store,
            "enrichment boom",
        ))
    });
    let completed = completed_with_email("user@example.com");
    let result = mapper.build_session(seed_of(&completed), &completed);
    assert!(
        matches!(&result, Err(e)
            if e.kind() == SessionErrorKind::Store
                && e.source().is_some_and(|s| s.contains("enrichment boom"))),
        "enricher error must propagate",
    );
}

// -- What the session cookie counts --

/// The key identity and outcome a load counts, given what the plaintext decodes
/// to, if it opens at all, and the identity of the configured key.
fn count_load(
    request: &HeaderMap,
    opened: Option<Option<()>>,
    configured: Option<&str>,
) -> Option<(String, String)> {
    let store = test_store();
    let counter = match store.load_session(request) {
        CookieLoad::Absent => return None,
        CookieLoad::Malformed { kid } => {
            store.record_malformed_load(kid.as_deref(), kid.as_deref() == configured)
        }
        CookieLoad::Unseal { kid, .. } => {
            let matches_key = kid.as_deref() == configured;
            store.finish_load(kid.as_deref(), matches_key, opened).1
        }
    };
    assert_eq!(counter.name, "huskarl.session_cookie.decrypt");
    Some((counter.labels[1].value.clone(), counter.labels[2].value.clone()))
}

fn counts(kid: &str, outcome: &str) -> Option<(String, String)> {
    Some((kid.to_owned(), outcome.to_owned()))
}

fn saved_with(kid: Option<&str>) -> Vec<String> {
    test_store().save_session(&bundle(100), kid, &HeaderMap::new()).unwrap().headers
}

#[test]
fn metrics_save_records_encrypt() {
    let saved = test_store().save_session(&bundle(100), None, &HeaderMap::new()).unwrap();
    assert_eq!(saved.counter.name, "huskarl.session_cookie.encrypt");
    assert_eq!(saved.counter.labels[1].value, "none");
}

#[test]
fn metrics_save_records_kid_when_cipher_has_identity() {
    let saved = test_store().save_session(&bundle(100), Some("v5"), &HeaderMap::new()).unwrap();
    assert_eq!(saved.counter.labels[1].value, "v5");
}

#[test]
fn metrics_load_absent_session_is_silent() {
    assert_eq!(count_load(&HeaderMap::new(), None, None), None);
}

#[test]
fn metrics_load_bad_base64_records_bad_encoding() {
    let request = cookie_header("__Host-huskarl_session.0=not!!valid!!base64");
    assert_eq!(count_load(&request, None, None), counts("none", "bad_encoding"));
}

#[test]
fn metrics_load_tampered_ciphertext_records_decrypt_failed() {
    let request = cookie_header("__Host-huskarl_session.0=AAAAAAAAAAAA");
    assert_eq!(count_load(&request, None, None), counts("none", "decrypt_failed"));
}

#[test]
fn metrics_load_success_records_ok() {
    let request = request_cookies_from_set_cookies(&saved_with(None));
    assert_eq!(count_load(&request, Some(Some(())), None), counts("none", "ok"));
}

#[test]
fn metrics_load_records_kid_from_sidecar_cookie() {
    let request = request_cookies_from_set_cookies(&saved_with(Some("v5")));
    assert_eq!(count_load(&request, Some(Some(())), Some("v5")), counts("v5", "ok"));
}

#[test]
fn metrics_load_payload_invalid_when_plaintext_is_not_valid_session() {
    let request = request_cookies_from_set_cookies(&saved_with(None));
    assert_eq!(count_load(&request, Some(None), None), counts("none", "payload_invalid"));
}

#[test]
fn metrics_load_forged_kid_is_normalized_to_unknown() {
    let saved = saved_with(None);
    let chunk = saved[0].split(';').next().unwrap();
    let forged = encode_kid("totally-bogus");
    let request = cookie_header(&format!("{chunk}; __Host-huskarl_session.kid={forged}"));
    assert_eq!(count_load(&request, Some(Some(())), Some("v5")), counts("unknown", "ok"));
}

#[test]
fn metrics_load_without_kid_sidecar_records_none_kid() {
    let saved = saved_with(Some("v5"));
    let request = request_cookies_from_set_cookies(&saved[..1]);
    assert_eq!(count_load(&request, Some(Some(())), Some("v5")), counts("none", "ok"));
}

// -- Opening what a set of keys sealed --

/// Stands for sealing under a key: its identity, the associated data and the
/// plaintext.
fn seal_under(key: &str, plaintext: &[u8], aad: &[u8]) -> Vec<u8> {
    [key.as_bytes(), &[0], aad, &[0], plaintext].concat()
}

fn open_under(key: &str, bundle: &[u8], aad: &[u8]) -> Option<Vec<u8>> {
    bundle.strip_prefix(seal_under(key, &[], aad).as_slice()).map(<[u8]>::to_vec)
}

/// Stands for unsealing under the keys `v1` and `v2`. A hinted key is the only
/// one tried while the hint is followed.
fn unseal(hint: Option<&str>, bundle: &[u8], aad: &[u8]) -> Option<Vec<u8>> {
    let mut attempt = first_unseal(hint.is_some());
    loop {
        let opened = ["v1", "v2"]
            .iter()
            .filter(|key| attempt == UnsealAttempt::AllKeys || hint == Some(**key))
            .find_map(|key| open_under(key, bundle, aad));
        match unseal_with_kid_fallback(attempt, opened.is_some()) {
            UnsealStep::Authentic => return opened,
            UnsealStep::Try(next) => attempt = next,
            UnsealStep::Failed => return None,
        }
    }
}

/// The payload a request's session cookie opens to, if it does.
fn loaded(store: &CookieSessionStore, request: &HeaderMap) -> Option<Vec<u8>> {
    match store.load_session(request) {
        CookieLoad::Unseal { kid, bundle, aad } => unseal(kid.as_deref(), &bundle, &aad),
        _ => None,
    }
}

/// The request after a session was saved under the given key.
fn saved_request(store: &CookieSessionStore, key: &str) -> HeaderMap {
    let sealed = seal_under(key, b"session payload", &store.session_aad());
    let saved = store.save_session(&sealed, Some(key), &HeaderMap::new()).unwrap();
    request_cookies_from_set_cookies(&saved.headers)
}

/// Replaces the kid sidecar in the request's `Cookie` header with `value`.
fn override_kid_cookie(request: &mut HeaderMap, value: &str) {
    let existing = request.get(header::COOKIE).unwrap().to_str().unwrap().to_owned();
    let mut pairs: Vec<String> = existing
        .split("; ")
        .filter(|p| !p.starts_with("__Host-huskarl_session.kid="))
        .map(str::to_owned)
        .collect();
    pairs.push(format!("__Host-huskarl_session.kid={value}"));
    request.insert(header::COOKIE, pairs.join("; ").parse().unwrap());
}

#[test]
fn save_then_load_roundtrips_state() {
    let store = test_store();
    let request = saved_request(&store, "v2");
    assert_eq!(loaded(&store, &request), Some(b"session payload".to_vec()));
}

#[test]
fn load_falls_back_when_kid_sidecar_is_garbage() {
    let store = test_store();
    let mut request = saved_request(&store, "v2");
    override_kid_cookie(&mut request, "!!!");
    assert_eq!(get_kid_cookie(&request, "__Host-huskarl_session"), None);
    assert!(loaded(&store, &request).is_some());
}

#[test]
fn load_falls_back_when_kid_sidecar_names_wrong_configured_key() {
    let store = test_store();
    let mut request = saved_request(&store, "v2");
    assert_eq!(get_kid_cookie(&request, "__Host-huskarl_session").as_deref(), Some("v2"));
    override_kid_cookie(&mut request, &encode_kid("v1"));
    assert!(
        loaded(&store, &request).is_some(),
        "wrong-but-configured kid hint must fall back to trial-decrypt"
    );
}

#[test]
fn load_falls_back_when_kid_sidecar_names_unknown_key() {
    let store = test_store();
    let mut request = saved_request(&store, "v2");
    override_kid_cookie(&mut request, &encode_kid("v9"));
    assert!(
        loaded(&store, &request).is_some(),
        "unknown kid hint must fall back to trial-decrypt"
    );
}

#[test]
fn load_fallback_does_not_authenticate_foreign_bundles() {
    // The fallback widens the key search, not the authenticity gate.
    let store = test_store();
    let mut request = saved_request(&store, "v9");
    override_kid_cookie(&mut request, &encode_kid("v1"));
    assert!(loaded(&store, &request).is_none());
}

#[test]
fn session_value_is_bound_to_its_cookie_name() {
    let named = |name: &str| {
        CookieSessionStore::new(
            name.parse().unwrap(),
            "/".parse().unwrap(),
            default_cookie_max_age(),
            DEFAULT_MAX_CHUNKS,
        )
    };
    let (a, b) = (named("app_a"), named("app_b"));
    let sealed = seal_under("v2", b"a session payload", &a.session_aad());
    assert!(
        unseal(None, &sealed, &b.session_aad()).is_none(),
        "a session sealed for app_a must not unseal under app_b's cookie name"
    );
    assert!(unseal(None, &sealed, &a.session_aad()).is_some());
}

#[test]
fn load_returns_none_when_continuation_chunk_missing() {
    // Gap between chunks 0 and 2: reassembly stops at the gap, and what is left
    // does not authenticate.
    let store = test_store();
    let request = cookie_header("__Host-huskarl_session.0=AAAA; __Host-huskarl_session.2=BBBB");
    assert_eq!(found_bundle(store.load_session(&request)), vec![0, 0, 0]);
    assert!(loaded(&store, &request).is_none());
}

#[test]
fn load_returns_none_when_decryption_fails() {
    let request = cookie_header("__Host-huskarl_session.0=AAAAAAAAAAAA");
    assert!(loaded(&test_store(), &request).is_none());
}
