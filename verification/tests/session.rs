use huskarl_login::completed_login::{CompletedLogin, IdTokenClaims};
use huskarl_login::cookie_session::CookieSession;
use huskarl_login::engine::error_chain;
use huskarl_login::enrich::{ClaimsFn, NoEnrichment};
use huskarl_login::extra::ExtraFields;
use huskarl_login::session::{SessionError, SessionErrorKind};
use huskarl_login::session_state::{RefreshToken, Session, SessionState, TokenResponse};
use huskarl_login::time::{Duration, Timestamp};

struct S(SessionState);

/// `hours` past the epoch; `now` in the cases below is 24 hours past it.
fn at(hours: u64) -> Timestamp {
    Timestamp::epoch().plus(Duration::from_hours(hours))
}

fn state(token_expiry: Timestamp, expire_at: Option<Timestamp>) -> SessionState {
    SessionState {
        token_expiry,
        refresh_token: Some(RefreshToken {
            token: "rt".to_owned(),
            dpop_jkt: None,
        }),
        sub: Some("alice".to_owned()),
        sid: Some("sid-1".to_owned()),
        created_at: Timestamp::epoch(),
        expire_at,
    }
}

// -- Storage deadline --

#[test]
fn storage_deadline() {
    let day = Duration::from_hours(24);
    for (token_expiry, expire_at, expected) in [
        // The activity horizon when unbounded.
        (at(25), None, at(49)),
        // Anchored at now when the token has expired.
        (at(23), None, at(48)),
        // The frozen deadline when sooner.
        (at(25), Some(at(25)), at(25)),
        // The horizon when sooner than the frozen deadline.
        (at(25), Some(at(9600)), at(49)),
    ] {
        let s = S(state(token_expiry, expire_at));
        assert_eq!(s.0.storage_deadline(at(24), day), expected);
    }
}

// -- Refreshing --

#[test]
fn refresh_keeps_identity_deadline_and_unrotated_token() {
    let s = state(at(1), Some(at(100)));
    let tr = TokenResponse {
        expires_in: Some(7200),
        refresh_token: None,
        ..TokenResponse::bearer("access-token", at(24))
    };
    let r = s.refreshed(&tr, Duration::from_hours(1), at(24));
    assert_eq!(r.token_expiry, at(26));
    assert_eq!(r.refresh_token.as_ref().unwrap().token, "rt");
    assert_eq!(r.sub.as_deref(), Some("alice"));
    assert_eq!(r.sid.as_deref(), Some("sid-1"));
    assert_eq!(r.created_at, Timestamp::epoch());
    assert_eq!(r.expire_at, Some(at(100)));
}

#[test]
fn refresh_takes_a_rotated_token_and_the_default_lifetime() {
    let mut s = CookieSession(state(at(1), None));
    let tr = TokenResponse {
        expires_in: None,
        refresh_token: Some(RefreshToken {
            token: "rotated".to_owned(),
            dpop_jkt: Some("jkt".to_owned()),
        }),
        ..TokenResponse::bearer("access-token", at(24))
    };
    s.apply_refresh(&tr, Duration::from_hours(1), at(24));
    assert_eq!(s.token_expiry(), at(25));
    assert_eq!(s.refresh_token().unwrap().token, "rotated");
    assert_eq!(s.refresh_token().unwrap().dpop_jkt.as_deref(), Some("jkt"));
    assert_eq!(s.id_token(), None);
}

// -- Building a session --

fn completed() -> CompletedLogin {
    CompletedLogin::new(
        TokenResponse {
            expires_in: Some(60),
            refresh_token: None,
            ..TokenResponse::bearer("access-token", at(24))
        },
        Some("bob".to_owned()),
        Some(IdTokenClaims {
            sid: Some("sid-2".to_owned()),
            ..IdTokenClaims::default()
        }),
    )
}

#[test]
fn session_state_is_built_from_a_completed_login() {
    let s = SessionState::from_completed(
        &completed(),
        Duration::from_hours(1),
        Some(Duration::from_hours(8)),
        at(24),
    );
    assert_eq!(s.token_expiry, at(24).plus(Duration::from_mins(1)));
    assert!(s.refresh_token.is_none());
    assert_eq!(s.sub.as_deref(), Some("bob"));
    assert_eq!(s.sid.as_deref(), Some("sid-2"));
    assert_eq!(s.created_at, at(24));
    assert_eq!(s.expire_at, Some(at(32)));
}

#[test]
fn completed_login_hands_out_its_parts() {
    let c = completed();
    assert_eq!(c.token_response().expires_in, Some(60));
    assert_eq!(c.subject(), Some("bob"));
    assert_eq!(
        c.id_token_claims().unwrap().sid.as_deref(),
        Some("sid-2")
    );
    let (tr, subject, claims) = c.into_parts();
    assert_eq!(tr.expires_in, Some(60));
    assert_eq!(subject.as_deref(), Some("bob"));
    assert!(claims.is_some());
}

#[test]
fn no_enrichment_converts_the_seed() {
    let session: CookieSession = match NoEnrichment.build_session(state(at(1), None), &completed())
    {
        Ok(s) => s,
        Err(e) => panic!("{}", e.message()),
    };
    assert_eq!(session.sub(), Some("alice"));
}

#[test]
fn claim_mappers_build_or_fail_the_session() {
    let mapper = ClaimsFn(|seed: SessionState, completed: &CompletedLogin| {
        match completed.subject() {
            Some(sub) => Ok((seed, sub.to_owned())),
            None => Err(SessionError::new(SessionErrorKind::Store, "enrichment boom")),
        }
    });
    match mapper.build_session(state(at(1), None), &completed()) {
        Ok((_, sub)) => assert_eq!(sub, "bob"),
        Err(e) => panic!("{}", e.message()),
    }
    let anonymous = CompletedLogin::new(
        TokenResponse {
            expires_in: None,
            refresh_token: None,
            ..TokenResponse::bearer("access-token", at(24))
        },
        None,
        None,
    );
    match mapper.build_session(state(at(1), None), &anonymous) {
        Ok(_) => panic!("enricher error must propagate"),
        Err(e) => assert_eq!(e.source(), Some("enrichment boom")),
    }
}

#[test]
fn claims_and_tokens_reach_the_session_builder() {
    let mut claims = IdTokenClaims {
        sid: Some("sid-3".to_owned()),
        extra: ExtraFields(vec![("roles".to_owned(), "[\"admin\"]".to_owned())]),
        ..IdTokenClaims::default()
    };
    claims.profile.name = Some("Ada".to_owned());
    let completed = CompletedLogin::new(
        TokenResponse {
            id_token: Some("raw.id.token".to_owned()),
            ..TokenResponse::bearer("access-token", at(24))
        },
        Some("ada".to_owned()),
        Some(claims),
    );
    let tokens = completed.token_response();
    assert_eq!(tokens.access_token.token, "access-token");
    assert_eq!(tokens.access_token.dpop_jkt, None);
    assert_eq!(tokens.id_token.as_deref(), Some("raw.id.token"));
    let claims = completed.id_token_claims().unwrap();
    assert_eq!(claims.profile.name.as_deref(), Some("Ada"));
    assert_eq!(claims.profile.email, None);
    assert_eq!(claims.extra.get("roles"), Some("[\"admin\"]"));
    assert_eq!(claims.extra.get("groups"), None);
}

/// A session that keeps tokens of its own.
struct TokenSession {
    state: SessionState,
    access_token: String,
    id_token: Option<String>,
}

impl Session for TokenSession {
    fn embedded(&self) -> SessionState {
        self.state.clone()
    }

    fn agrees_outside_state(&self, other: &Self) -> bool {
        self.access_token == other.access_token && self.id_token == other.id_token
    }

    fn same_record(&self, _other: &Self) -> bool {
        true
    }

    fn state(&self) -> &SessionState {
        &self.state
    }

    fn set_state(&mut self, state: SessionState) {
        self.state = state;
    }

    fn id_token(&self) -> Option<&str> {
        self.id_token.as_deref()
    }

    fn apply_refresh(
        &mut self,
        token_response: &TokenResponse,
        default_lifetime: Duration,
        now: Timestamp,
    ) {
        let state = self.state().refreshed(token_response, default_lifetime, now);
        self.set_state(state);
        self.access_token = token_response.access_token.token.clone();
    }
}

#[test]
fn custom_session_keeps_tokens_of_its_own() {
    let mut s = TokenSession {
        state: state(at(25), None),
        access_token: "first".to_owned(),
        id_token: Some("raw.id.token".to_owned()),
    };
    assert_eq!(s.id_token(), Some("raw.id.token"));
    let second = TokenResponse::bearer("second", at(24));
    s.apply_refresh(&second, Duration::from_hours(2), at(24));
    assert_eq!(s.access_token, "second");
    assert_eq!(s.token_expiry(), at(26));
}

// -- Errors --

#[test]
fn only_unavailable_errors_are_retryable() {
    for (kind, retryable) in [
        (SessionErrorKind::Unavailable, true),
        (SessionErrorKind::Conflict, false),
        (SessionErrorKind::Gone, false),
        (SessionErrorKind::Crypto, false),
        (SessionErrorKind::Encoding, false),
        (SessionErrorKind::Store, false),
    ] {
        let e = SessionError::from(kind);
        assert_eq!(e.kind(), kind);
        assert_eq!(e.is_retryable(), retryable, "{kind:?}");
    }
    assert_eq!(
        SessionError::from_outside(true, "x").kind(),
        SessionErrorKind::Unavailable
    );
    assert_eq!(
        SessionError::from_outside(false, "x").kind(),
        SessionErrorKind::Store
    );
}

#[test]
fn context_layers_outermost_first() {
    let e = SessionError::new(SessionErrorKind::Gone, "row missing");
    assert_eq!(e.message(), "session no longer exists");
    let e = e.with_context("inner").with_context("outer");
    assert_eq!(e.message(), "outer: inner: session no longer exists");
    assert_eq!(e.source(), Some("row missing"));
}

#[test]
fn error_chain_formats_single_error() {
    let err = "not-a-number".parse::<i32>().unwrap_err();
    let chain = error_chain(&vec![err.to_string()]);
    assert!(!chain.is_empty());
    assert!(chain.contains("invalid digit"), "got: {chain}");
}

#[test]
fn error_chain_joins_causes_with_colons() {
    let messages = vec![
        "outer".to_owned(),
        "middle".to_owned(),
        "root cause".to_owned(),
    ];
    assert_eq!(error_chain(&messages), "outer: middle: root cause");
    assert_eq!(error_chain(&vec![]), "");
}

// -- Time --

#[test]
fn time_saturates_instead_of_overflowing() {
    let last = Timestamp { nanos: i128::MAX };
    assert_eq!(last.plus(Duration::from_secs(1)), last);
    let first = Timestamp { nanos: i128::MIN };
    assert_eq!(
        first.plus(Duration { nanos: u128::MAX }),
        Timestamp { nanos: i128::MAX }
    );
    assert_eq!(last.since(first), Duration { nanos: u128::MAX });
    assert_eq!(first.since(last), Duration::zero());
    assert_eq!(
        Timestamp { nanos: -5 }.plus(Duration { nanos: 7 }),
        Timestamp { nanos: 2 }
    );
}
