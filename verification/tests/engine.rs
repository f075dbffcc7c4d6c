use base64::engine::general_purpose::URL_SAFE_NO_PAD;
use base64::Engine as _;
use http::{HeaderMap, HeaderName, HeaderValue};
use huskarl_login::config::{
    ActivityPolicy, LoginConfig, LoginConfigBuilder, LogoutConfig, SessionLifetime,
};
use huskarl_login::cookie::{
    default_cookie_max_age, login_state_cookie_name, DEFAULT_LOGIN_COOKIE_PREFIX,
};
use huskarl_login::cookie_session::{CookieSessionStore, DEFAULT_MAX_CHUNKS};
use huskarl_login::engine::base::{LoginEngine, Route, TeardownReason};
use huskarl_login::engine::callback::{
    login_state_aad, CallbackFlow, CallbackStep,
};
use huskarl_login::engine::load::{
    ExchangeOutcome, LoadStep, LoadedSession, PendingPersist, MAX_CLOCK_SKEW_NANOS,
};
use huskarl_login::engine::redirect::LoginStart;
use huskarl_login::engine::response::{
    DefaultErrorPage, DefaultPersistFailurePolicy, ErrorReply, Header, LoginResponse,
    PersistFailurePolicy, Reply, SetCookies,
};
use huskarl_login::engine::retry::REFRESH_MAX_ATTEMPTS;
use huskarl_login::engine::{is_cors_preflight, is_cross_site_request, is_navigation_request};
use huskarl_login::liveness::{LivenessConfig, LivenessVerdict};
use huskarl_login::metrics::Counter;
use huskarl_login::session::{SessionError, SessionErrorKind};
use huskarl_login::session_state::{RefreshToken, Session, SessionState, TokenResponse};
use huskarl_login::store_session::{to_session_err, StoreBackedSessionStore};
use huskarl_login::time::{Duration, Timestamp};
use huskarl_login::url::{append_query, build_end_session_url, original_url};

// -- Fixtures --

fn headers(pairs: &[(&str, &str)]) -> HeaderMap {
    let mut map = HeaderMap::new();
    for (name, value) in pairs {
        map.insert(
            HeaderName::from_bytes(name.as_bytes()).unwrap(),
            HeaderValue::from_str(value).unwrap(),
        );
    }
    map
}

fn nav_headers() -> HeaderMap {
    headers(&[("sec-fetch-mode", "navigate")])
}

fn api_headers() -> HeaderMap {
    headers(&[("accept", "application/json")])
}

fn now() -> Timestamp {
    Timestamp::epoch().plus(Duration::from_hours(500_000))
}

fn ago(d: Duration) -> Timestamp {
    Timestamp {
        nanos: now().nanos - d.nanos as i128,
    }
}

fn config_with(lifetime: SessionLifetime) -> LoginConfigBuilder {
    LoginConfig::builder(
        "/callback",
        vec![],
        lifetime,
        "https://app.example.com".parse().unwrap(),
    )
}

fn default_config() -> LoginConfigBuilder {
    config_with(SessionLifetime::DelegatedToAuthorizationServer)
}

fn logout_config(end_session: Option<&str>, post_logout: Option<&str>) -> LoginConfigBuilder {
    default_config().logout(
        LogoutConfig::new(
            "/logout",
            end_session.map(|e| e.parse().unwrap()),
            post_logout.map(str::to_owned),
        )
        .unwrap(),
    )
}

fn test_store() -> CookieSessionStore {
    CookieSessionStore::new(
        "session".parse().unwrap(),
        "/".parse().unwrap(),
        default_cookie_max_age(),
        DEFAULT_MAX_CHUNKS,
    )
}

fn engine(config: LoginConfigBuilder) -> LoginEngine<CookieSessionStore> {
    LoginEngine::new(config.build().unwrap(), test_store(), None)
}

fn session_with(
    token_expiry: Timestamp,
    refresh_token: Option<&str>,
    created_at: Timestamp,
) -> SessionState {
    SessionState {
        token_expiry,
        refresh_token: refresh_token.map(|t| RefreshToken {
            token: t.to_owned(),
            dpop_jkt: None,
        }),
        sub: None,
        sid: None,
        created_at,
        expire_at: None,
    }
}

fn valid_session() -> SessionState {
    session_with(now().plus(Duration::from_hours(1)), None, now())
}

fn login_cookie_name(state: &str) -> String {
    login_state_cookie_name(state, true, "/callback", DEFAULT_LOGIN_COOKIE_PREFIX)
}

fn headers_with_login_cookie(state: &str, value: &str) -> HeaderMap {
    headers(&[("cookie", &format!("{}={value}", login_cookie_name(state)))])
}

fn labels(c: &Counter) -> Vec<(&str, &str)> {
    c.labels.iter().map(|l| (l.key, l.value.as_str())).collect()
}

fn value_of<'a>(headers: &'a [Header], name: &str) -> Option<&'a str> {
    headers.iter().find(|h| h.name == name).map(|h| h.value.as_str())
}

fn set_cookies(headers: &[Header]) -> Vec<&str> {
    headers
        .iter()
        .filter(|h| h.name == "set-cookie")
        .map(|h| h.value.as_str())
        .collect()
}

/// The response for an error, rendered through the default page.
fn rendered(e: ErrorReply) -> LoginResponse {
    let page = DefaultErrorPage.render(&e.message);
    e.build_error_response(page)
}

/// Loads a session whose store answers `found` and `verdict`, whose token
/// exchanges are answered by `answers`, in order; the steps up to the end.
fn drive_load(
    e: &LoginEngine<CookieSessionStore>,
    request: &HeaderMap,
    found: Option<&SessionState>,
    verdict: LivenessVerdict,
    answers: &[ExchangeOutcome],
) -> Vec<LoadStep> {
    let mut steps = vec![e.load_session(found, request, now())];
    let mut answered = 0;
    loop {
        let next = match *steps.last().unwrap() {
            LoadStep::CheckLiveness { .. } => e.load_judged(verdict, found.unwrap(), now()),
            LoadStep::Exchange { attempt } => {
                let answer = answers[answered];
                answered += 1;
                e.refresh_or_clear(attempt, answer, found.unwrap().token_expiry, now()).0
            }
            LoadStep::Retry { attempt } => e.refresh_with_retry(attempt).1,
            _ => return steps,
        };
        steps.push(next);
    }
}

fn end_of_load(found: &SessionState, config: LoginConfigBuilder) -> LoadStep {
    let steps = drive_load(
        &engine(config),
        &HeaderMap::new(),
        Some(found),
        LivenessVerdict::Untracked,
        &[],
    );
    *steps.last().unwrap()
}

const TRANSIENT: ExchangeOutcome = ExchangeOutcome::Failed { retryable: true };
const REJECTED: ExchangeOutcome = ExchangeOutcome::Failed { retryable: false };

// -- Stamping the store --

#[test]
fn engine_stamps_store_secure_from_https_base_url() {
    let e = engine(default_config());
    assert_eq!(e.session_store.cookie_name(), "__Host-session");
}

#[test]
fn engine_stamps_store_insecure_from_http_base_url() {
    let config = LoginConfig::builder(
        "/callback",
        vec![],
        SessionLifetime::DelegatedToAuthorizationServer,
        "http://localhost:6188".parse().unwrap(),
    );
    assert_eq!(engine(config).session_store.cookie_name(), "session");
}

#[test]
fn engine_stamps_store_with_bounded_session_lifetime() {
    let cap = Duration::from_hours(8);
    let e = engine(config_with(SessionLifetime::Bounded(cap)));
    assert_eq!(e.session_store.max_lifetime(), Some(cap));
    let saved = e.session_store.save_session(b"x", None, &HeaderMap::new()).unwrap();
    assert!(saved.headers[0].ends_with("; Max-Age=28800"));
}

// -- Classifying requests --

#[test]
fn is_navigation_request_cases() {
    let cases: &[(&[(&str, &str)], bool)] = &[
        (&[("x-requested-with", "XMLHttpRequest")], false),
        (&[("x-requested-with", "xmlhttprequest")], false),
        (&[("sec-fetch-mode", "navigate")], true),
        (&[("sec-fetch-mode", "cors")], false),
        (&[("sec-fetch-mode", "no-cors")], false),
        (&[("sec-fetch-dest", "document")], true),
        (&[("sec-fetch-dest", "empty")], false),
        (&[("sec-fetch-dest", "image")], false),
        (&[("accept", "text/html,application/xhtml+xml,*/*;q=0.8")], true),
        (&[("accept", "application/xhtml+xml")], true),
        (&[("accept", "application/json")], false),
        (&[], false),
        // Sec-Fetch-User is an affirmative navigation signal when Mode/Dest are
        // absent (e.g. stripped by an intermediary).
        (&[("sec-fetch-user", "?1")], true),
        (&[("sec-fetch-user", "?1"), ("accept", "application/json")], true),
        // An explicit XHR/CORS signal wins over a navigation-looking one.
        (
            &[("x-requested-with", "XMLHttpRequest"), ("sec-fetch-mode", "navigate")],
            false,
        ),
        (&[("sec-fetch-mode", "cors"), ("accept", "text/html")], false),
        (&[("sec-fetch-mode", "cors"), ("sec-fetch-user", "?1")], false),
        // Frames and speculative loads are not navigations.
        (&[("sec-fetch-mode", "navigate"), ("sec-fetch-dest", "iframe")], false),
        (&[("sec-fetch-mode", "navigate"), ("sec-fetch-dest", "document")], true),
        (&[("sec-fetch-mode", "navigate"), ("sec-purpose", "prefetch")], false),
        (&[("sec-fetch-mode", "navigate"), ("purpose", "Prefetch")], false),
        (&[("sec-fetch-mode", "navigate"), ("purpose", "other")], true),
    ];
    for (pairs, expected) in cases {
        assert_eq!(is_navigation_request(&headers(pairs)), *expected, "{pairs:?}");
    }
}

#[test]
fn is_cross_site_request_cases() {
    let cases: &[(&[(&str, &str)], bool)] = &[
        (&[("sec-fetch-site", "cross-site")], true),
        (&[("sec-fetch-site", "same-origin")], false),
        (&[("sec-fetch-site", "same-site")], false),
        // "none" means user-initiated (typed URL, bookmark) — not a forgery.
        (&[("sec-fetch-site", "none")], false),
        (&[], false),
    ];
    for (pairs, expected) in cases {
        assert_eq!(is_cross_site_request(&headers(pairs)), *expected, "{pairs:?}");
    }
}

#[test]
fn cors_preflight_is_detected() {
    let h = headers(&[("access-control-request-method", "POST")]);
    assert!(is_cors_preflight("OPTIONS", &h));
    assert!(!is_cors_preflight("POST", &h));
}

#[test]
fn options_without_acr_header_is_not_preflight() {
    assert!(!is_cors_preflight("OPTIONS", &api_headers()));
}

#[test]
fn unreadable_accept_header_is_no_navigation() {
    let mut map = HeaderMap::new();
    map.insert("accept", HeaderValue::from_bytes(b"text/html\xff").unwrap());
    assert!(!is_navigation_request(&map));
}

// -- Routing --

#[test]
fn callback_path_is_handled() {
    let e = engine(default_config());
    assert_eq!(e.try_handle_login_route("GET", "/callback"), Route::Callback);
    match e.handle_callback("", &HeaderMap::new()) {
        CallbackStep::Fail(reply, _) => assert_eq!(reply.status, 400),
        _ => panic!("expected an error"),
    }
}

#[test]
fn logout_path_is_handled_when_configured() {
    let e = engine(logout_config(None, None));
    assert_eq!(e.try_handle_login_route("POST", "/logout"), Route::Logout);
}

/// The answer to a method that a login route does not accept.
fn refused(e: &LoginEngine<CookieSessionStore>, method: &str, path: &str) -> LoginResponse {
    let route = e.try_handle_login_route(method, path);
    match e.route_refusal(route) {
        Some(reply) => rendered(reply),
        None => panic!("reserved path must not fall through"),
    }
}

#[test]
fn callback_rejects_non_get_methods() {
    let e = engine(default_config());
    for method in ["POST", "PUT", "DELETE", "HEAD"] {
        let r = refused(&e, method, "/callback");
        assert_eq!(r.status(), 405, "{method}");
        assert_eq!(value_of(&r.headers(), "allow"), Some("GET"), "{method}");
    }
    assert!(e.route_refusal(Route::Callback).is_none());
}

#[test]
fn logout_rejects_other_methods() {
    let e = engine(logout_config(None, None));
    // GET is rejected too: logout is POST-only so it can't be triggered by a
    // link, an `<img>`, or a prefetch.
    for method in ["GET", "PUT", "DELETE", "HEAD"] {
        let r = refused(&e, method, "/logout");
        assert_eq!(r.status(), 405, "{method}");
        assert_eq!(value_of(&r.headers(), "allow"), Some("POST"), "{method}");
    }
    assert!(e.route_refusal(Route::Logout).is_none());
    assert!(e.route_refusal(Route::Application).is_none());
}

#[test]
fn logout_accepts_post() {
    let e = engine(logout_config(None, None));
    let route = e.try_handle_login_route("POST", "/logout");
    assert_eq!(route, Route::Logout);
    assert!(e.route_refusal(route).is_none());
    assert!(e.handle_logout(&HeaderMap::new()).is_none());
    let location = logout_location(logout_config(None, None), None);
    assert_eq!(e.logout_redirect(location, None).status(), 303);
}

#[test]
fn logout_path_returns_none_when_unconfigured() {
    let e = engine(default_config());
    assert_eq!(e.try_handle_login_route("GET", "/logout"), Route::Application);
    assert_eq!(e.try_handle_login_route("GET", "/callback/x"), Route::Application);
}

// -- Starting a login --

#[test]
fn redirect_to_login_navigation_returns_302() {
    let e = engine(default_config());
    let original_url = match e.redirect_to_login(&nav_headers(), "/protected", Some("a=1")) {
        LoginStart::Start { original_url } => original_url,
        LoginStart::Refuse(_) => panic!("a navigation starts the flow"),
    };
    assert_eq!(original_url, "https://app.example.com/protected?a=1");
    let cookie = e.build_login_state_cookie("mystate", b"sealed").unwrap();
    let (r, c) = match e.redirect_to_as("https://auth.example.com/authorize?client_id=client", cookie)
    {
        Ok(ok) => ok,
        Err(err) => panic!("{}", err.message()),
    };
    assert_eq!(r.status(), 302);
    let hdrs = r.headers();
    assert_eq!(
        value_of(&hdrs, "location"),
        Some("https://auth.example.com/authorize?client_id=client")
    );
    assert_eq!(
        set_cookies(&hdrs),
        vec![
            "__Secure-huskarl_login_mystate=c2VhbGVk; HttpOnly; SameSite=Lax; Path=/callback; \
             Secure; Max-Age=600"
        ]
    );
    assert_eq!(c.name, "huskarl.login.start");
    assert_eq!(labels(&c), vec![("outcome", "ok")]);
}

#[test]
fn redirect_to_login_navigation_is_no_store() {
    let e = engine(default_config());
    let cookie = e.build_login_state_cookie("mystate", b"sealed").unwrap();
    match e.redirect_to_as("https://auth.example.com/authorize", cookie) {
        Ok((r, _)) => assert_eq!(value_of(&r.headers(), "cache-control"), Some("no-store")),
        Err(err) => panic!("{}", err.message()),
    }
}

#[test]
fn redirect_to_login_api_returns_401() {
    let e = engine(default_config());
    let reply = match e.redirect_to_login(&api_headers(), "/api/data", None) {
        LoginStart::Refuse(reply) => reply,
        LoginStart::Start { .. } => panic!("an API request is refused"),
    };
    let r = rendered(reply);
    assert_eq!(r.status(), 401);
    // RFC 9110: every 401 carries a WWW-Authenticate challenge.
    assert_eq!(value_of(&r.headers(), "www-authenticate"), Some("Cookie"));
}

#[test]
fn login_state_cookie_uses_configured_ttl() {
    let e = engine(default_config().login_state_ttl(Duration::from_mins(30)));
    let cookie = e.build_login_state_cookie("mystate", b"sealed").unwrap();
    assert!(cookie.contains("Max-Age=1800"));
}

#[test]
fn unsafe_authorization_url_fails_the_start() {
    let e = engine(default_config());
    let cookie = e.build_login_state_cookie("mystate", b"sealed").unwrap();
    match e.redirect_to_as("https://auth.example.com/\n", cookie) {
        Ok(_) => panic!("a control character cannot stand in a header"),
        Err(err) => assert_eq!(err.kind(), SessionErrorKind::Encoding),
    }
    let (reply, c) = e.start_failed();
    assert_eq!(reply.status, 500);
    assert_eq!(reply.message, "failed to start login");
    assert_eq!(labels(&c), vec![("outcome", "error")]);
}

#[test]
fn return_url_strips_the_proxy_prefix_and_joins_the_base_path() {
    let config = LoginConfig::builder(
        "/internal/callback",
        vec![],
        SessionLifetime::DelegatedToAuthorizationServer,
        "https://app.example.com/base/".parse().unwrap(),
    )
    .strip_prefix("/internal")
    .build()
    .unwrap();
    assert_eq!(
        original_url(&config, "/internal/page", Some("q=1")).as_deref(),
        Some("https://app.example.com/base/page?q=1")
    );
    assert_eq!(
        original_url(&config, "/elsewhere", None).as_deref(),
        Some("https://app.example.com/base/elsewhere")
    );
    assert_eq!(original_url(&config, "/in valid", None), None);
    let e = LoginEngine::new(config, test_store(), None);
    match e.redirect_to_login(&nav_headers(), "/in valid", None) {
        LoginStart::Start { original_url } => {
            assert_eq!(original_url, "https://app.example.com/base/");
        }
        LoginStart::Refuse(_) => panic!("a navigation starts the flow"),
    }
}

#[test]
fn return_url_cannot_leave_the_origin() {
    let config = default_config().build().unwrap();
    assert_eq!(
        original_url(&config, "//evil.example.com/x", None).as_deref(),
        Some("https://app.example.com//evil.example.com/x")
    );
    assert_eq!(
        original_url(&config, ".evil.example.com", None).as_deref(),
        Some("https://app.example.com/.evil.example.com")
    );
}

// -- The callback --

fn callback_reply(query: &str, request: &HeaderMap) -> (ErrorReply, Counter) {
    match engine(default_config()).handle_callback(query, request) {
        CallbackStep::Fail(reply, counter) => (reply, counter),
        _ => panic!("expected an error"),
    }
}

fn opened_flow(e: &LoginEngine<CookieSessionStore>, state: &str) -> CallbackFlow {
    let request = headers_with_login_cookie(state, "c2VhbGVk");
    match e.handle_callback(&format!("code=abc&state={state}&iss=https%3A%2F%2Fas"), &request) {
        CallbackStep::Unseal { flow, bundle, aad } => {
            assert_eq!(bundle, b"sealed".to_vec());
            assert_eq!(aad, login_state_aad(state));
            flow
        }
        _ => panic!("expected a bundle to open"),
    }
}

#[test]
fn callback_no_params_returns_400() {
    let (reply, c) = callback_reply("", &HeaderMap::new());
    assert_eq!(reply.status, 400);
    assert_eq!(reply.message, "missing code or state");
    assert_eq!(labels(&c), vec![("outcome", "invalid_request"), ("error", "none")]);
}

#[test]
fn callback_missing_code_returns_400() {
    assert_eq!(callback_reply("state=abc", &HeaderMap::new()).0.status, 400);
}

#[test]
fn callback_missing_state_returns_400() {
    assert_eq!(callback_reply("code=authcode", &HeaderMap::new()).0.status, 400);
}

#[test]
fn callback_as_error_returns_403() {
    let (reply, c) = callback_reply("error=access_denied", &HeaderMap::new());
    assert_eq!(reply.status, 403);
    assert_eq!(reply.message, "authorization denied (access_denied)");
    assert_eq!(labels(&c), vec![("outcome", "as_denied"), ("error", "access_denied")]);
}

#[test]
fn callback_as_error_with_description_returns_403() {
    let (reply, _) = callback_reply(
        "error=access_denied&error_description=User+denied+access",
        &HeaderMap::new(),
    );
    assert_eq!(reply.status, 403);
    assert_eq!(reply.message, "authorization denied: User denied access");
}

#[test]
fn metrics_callback_as_denied_normalizes_unknown_error_code() {
    let (_, c) = callback_reply("error=attacker_chosen_garbage_12345", &HeaderMap::new());
    assert_eq!(labels(&c), vec![("outcome", "as_denied"), ("error", "other")]);
}

#[test]
fn callback_malformed_base64_cookie_returns_400() {
    let request = headers_with_login_cookie("teststate", "not-valid!!!base64");
    let (reply, c) = callback_reply("code=authcode&state=teststate", &request);
    assert_eq!(labels(&c)[0], ("outcome", "state_invalid"));
    let r = rendered(reply);
    assert_eq!(r.status(), 400);
    assert_eq!(
        set_cookies(&r.headers()),
        vec![
            "__Secure-huskarl_login_teststate=; HttpOnly; SameSite=Lax; Path=/callback; Secure; \
             Max-Age=0"
        ]
    );
}

#[test]
fn callback_no_state_cookie_returns_400() {
    let e = engine(default_config());
    assert!(matches!(
        e.handle_callback("code=authcode&state=mystate", &HeaderMap::new()),
        CallbackStep::FindSession
    ));
    match e.answer_without_state(None, now()) {
        (Reply::Error(reply), c) => {
            assert_eq!(reply.status, 400);
            assert_eq!(reply.message, "invalid or missing state");
            assert_eq!(labels(&c)[0], ("outcome", "invalid_request"));
        }
        _ => panic!("expected an error"),
    }
}

#[test]
fn callback_without_state_cookie_but_with_session_redirects_home() {
    let e = engine(default_config());
    match e.answer_without_state(Some(&valid_session()), now()) {
        (Reply::Response(r), c) => {
            assert_eq!(r.status(), 302);
            assert_eq!(value_of(&r.headers(), "location"), Some("https://app.example.com/"));
            assert_eq!(labels(&c)[0], ("outcome", "already_authenticated"));
        }
        _ => panic!("expected a redirect"),
    }
}

#[test]
fn callback_without_state_cookie_and_expired_session_returns_400() {
    // An expired session can't vouch for the user.
    let session = session_with(
        ago(Duration::from_mins(5)),
        None,
        ago(Duration::from_hours(1)),
    );
    let e = engine(default_config());
    match e.answer_without_state(Some(&session), now()) {
        (Reply::Error(reply), _) => assert_eq!(reply.status, 400),
        _ => panic!("expected an error"),
    }
}

#[test]
fn callback_hands_on_code_state_and_issuer() {
    let e = engine(default_config());
    let flow = opened_flow(&e, "valid_state");
    assert_eq!(flow.code(), "abc");
    assert_eq!(flow.state(), "valid_state");
    assert_eq!(flow.iss(), Some("https://as"));
    assert_eq!(flow.cookie_name(), login_cookie_name("valid_state"));
}

/// Why a login state begun at the given time, or one that did not decode or
/// open, is not usable.
fn state_fault(
    e: &LoginEngine<CookieSessionStore>,
    flow: &CallbackFlow,
    opened: Option<Option<Timestamp>>,
) -> Option<(ErrorReply, Counter)> {
    let opened = opened.map(|decoded| decoded.map(|created_at| ((), created_at)));
    e.decode_login_state(flow, opened, now()).err()
}

#[test]
fn callback_tampered_aead_bundle_returns_400() {
    let e = engine(default_config());
    let flow = opened_flow(&e, "teststate");
    let (reply, c) = state_fault(&e, &flow, None).unwrap();
    assert_eq!(reply.status, 400);
    assert_eq!(reply.message, "state cookie decryption failed");
    assert_eq!(labels(&c)[0], ("outcome", "state_invalid"));
}

#[test]
fn callback_corrupt_login_state_returns_500() {
    let e = engine(default_config());
    let flow = opened_flow(&e, "teststate");
    let (reply, _) = state_fault(&e, &flow, Some(None)).unwrap();
    assert_eq!(reply.status, 500);
    assert_eq!(reply.message, "corrupt login state");
}

#[test]
fn callback_expired_login_state_returns_400_and_clears_cookie() {
    // Default login_state_ttl is 10 minutes; this flow started 11 minutes ago.
    let e = engine(default_config());
    let flow = opened_flow(&e, "expiredstate");
    let opened = Some(Some(ago(Duration::from_mins(11))));
    let (reply, _) = state_fault(&e, &flow, opened).unwrap();
    assert_eq!(reply.message, "login state expired");
    let r = rendered(reply);
    assert_eq!(r.status(), 400);
    let start = format!("{}=;", login_cookie_name("expiredstate"));
    assert!(set_cookies(&r.headers())
        .iter()
        .any(|s| s.starts_with(&start) && s.contains("Max-Age=0")));
}

#[test]
fn callback_pre_created_at_format_treated_as_expired() {
    // A payload without a start time decodes as the epoch.
    let e = engine(default_config());
    let flow = opened_flow(&e, "oldformat");
    assert!(state_fault(&e, &flow, Some(Some(Timestamp::epoch()))).is_some());
}

#[test]
fn login_state_is_usable_within_its_lifetime_and_the_skew() {
    let e = engine(default_config());
    let flow = opened_flow(&e, "teststate");
    for (created_at, usable) in [
        (now(), true),
        (ago(Duration::from_mins(10)), true),
        (now().plus(Duration::from_secs(60)), true),
        (now().plus(Duration::from_secs(61)), false),
    ] {
        let opened = Some(Some(("https://app.example.com/wanted", created_at)));
        let login = e.decode_login_state(&flow, opened, now()).ok();
        assert_eq!(login, usable.then_some("https://app.example.com/wanted"));
    }
}

#[test]
fn callback_valid_cookie_exchange_fails_returns_502() {
    let e = engine(default_config());
    let flow = opened_flow(&e, "valid_state");
    let (reply, c) = e.exchange_failed(&flow);
    assert_eq!(reply.status, 502);
    assert_eq!(reply.message, "token exchange failed");
    assert_eq!(labels(&c)[0], ("outcome", "token_exchange_failed"));
    let (reply, c) = e.create_failed(&flow);
    assert_eq!(reply.status, 500);
    assert_eq!(reply.message, "failed to create session");
    assert_eq!(labels(&c)[0], ("outcome", "session_create_failed"));
}

#[test]
fn callback_success_redirects_to_original_url() {
    let e = engine(default_config());
    let request = headers_with_login_cookie("valid_state", "c2VhbGVk");
    let (r, c) = e.build_callback_redirect(
        "https://app.example.com/page",
        &request,
        vec!["session=1".to_owned()],
    );
    assert_eq!(r.status(), 302);
    let hdrs = r.headers();
    assert_eq!(value_of(&hdrs, "location"), Some("https://app.example.com/page"));
    let cookies = set_cookies(&hdrs);
    assert_eq!(cookies.len(), 2);
    assert!(cookies[0].contains("huskarl_login_") && cookies[0].contains("Max-Age=0"));
    assert_eq!(cookies[1], "session=1");
    assert_eq!(labels(&c), vec![("outcome", "ok"), ("error", "none")]);
}

#[test]
fn callback_success_sweeps_all_pending_login_state_cookies() {
    let e = engine(default_config());
    let cookie_header = format!(
        "{}=sealed; unrelated=keep; {}=stale1; {}=stale2",
        login_cookie_name("valid_state"),
        login_cookie_name("stale_a"),
        login_cookie_name("stale_b"),
    );
    let request = headers(&[("cookie", &cookie_header)]);
    let (r, _) = e.build_callback_redirect("https://app.example.com/page", &request, vec![]);
    let hdrs = r.headers();
    let cookies = set_cookies(&hdrs);
    for s in ["valid_state", "stale_a", "stale_b"] {
        let n = login_cookie_name(s);
        assert!(
            cookies
                .iter()
                .any(|v| v.starts_with(&format!("{n}=;")) && v.contains("Max-Age=0")),
            "expected clear for pending flow cookie {n}"
        );
    }
    assert!(
        !cookies.iter().any(|v| v.starts_with("unrelated=")),
        "unrelated cookies must not be swept"
    );
}

#[test]
fn unsafe_original_url_falls_back_to_the_base_url() {
    let e = engine(default_config());
    assert_eq!(e.redirect_location("https://app.example.com/a\nb"), "https://app.example.com/");
    assert_eq!(e.redirect_location("https://app.example.com/a"), "https://app.example.com/a");
}

#[test]
fn sealed_values_are_bound_to_purpose_and_slot() {
    assert_eq!(login_state_aad("abc"), b"login_state:abc".to_vec());
    let e = engine(default_config());
    assert_ne!(e.session_store.session_aad(), login_state_aad("__Host-session"));
}

// -- Loading a session --

#[test]
fn load_session_empty_store_returns_missing() {
    let e = engine(default_config());
    let steps = drive_load(&e, &HeaderMap::new(), None, LivenessVerdict::Untracked, &[]);
    assert_eq!(steps, vec![LoadStep::Missing]);
}

#[test]
fn untracked_verdict_yields_active() {
    assert_eq!(end_of_load(&valid_session(), default_config()), LoadStep::Serve);
}

#[test]
fn active_verdict_yields_active() {
    let e = engine(default_config());
    let session = valid_session();
    let steps = drive_load(&e, &HeaderMap::new(), Some(&session), LivenessVerdict::Active, &[]);
    assert_eq!(*steps.last().unwrap(), LoadStep::Serve);
    match LoadedSession::serve(session) {
        LoadedSession::Active { set_cookies, .. } => assert!(set_cookies.is_empty()),
        _ => panic!("expected an active session"),
    }
}

#[test]
fn max_lifetime_expired_clears_session() {
    let session = session_with(
        now().plus(Duration::from_hours(1)),
        None,
        ago(Duration::from_secs(7201)),
    );
    assert_eq!(
        end_of_load(&session, config_with(SessionLifetime::Bounded(Duration::from_hours(1)))),
        LoadStep::Delete(TeardownReason::MaxLifetime)
    );
}

#[test]
fn frozen_expire_at_is_enforced_over_a_raised_lifetime() {
    let created_at = ago(Duration::from_secs(7200));
    let mut session = session_with(now().plus(Duration::from_hours(1)), None, created_at);
    session.expire_at = Some(created_at.plus(Duration::from_hours(1)));
    assert_eq!(
        end_of_load(&session, config_with(SessionLifetime::Bounded(Duration::from_hours(24)))),
        LoadStep::Delete(TeardownReason::MaxLifetime)
    );
}

#[test]
fn lowered_lifetime_applies_to_sessions_with_a_longer_frozen_deadline() {
    let created_at = ago(Duration::from_secs(7200));
    let mut session = session_with(now().plus(Duration::from_hours(1)), None, created_at);
    session.expire_at = Some(created_at.plus(Duration::from_hours(48)));
    assert_eq!(
        end_of_load(&session, config_with(SessionLifetime::Bounded(Duration::from_hours(1)))),
        LoadStep::Delete(TeardownReason::MaxLifetime)
    );
}

#[test]
fn frozen_expire_at_is_enforced_under_a_delegated_config() {
    let created_at = ago(Duration::from_secs(7200));
    let mut session = session_with(now().plus(Duration::from_hours(1)), None, created_at);
    session.expire_at = Some(created_at.plus(Duration::from_hours(1)));
    assert_eq!(
        end_of_load(&session, default_config()),
        LoadStep::Delete(TeardownReason::MaxLifetime)
    );
}

#[test]
fn idle_timeout_expired_clears_session() {
    let e = engine(default_config());
    let session = valid_session();
    let steps = drive_load(&e, &HeaderMap::new(), Some(&session), LivenessVerdict::Expired, &[]);
    assert_eq!(
        *steps.last().unwrap(),
        LoadStep::Delete(TeardownReason::IdleTimeout)
    );
}

fn records_activity(config: LoginConfigBuilder, request: &HeaderMap) -> bool {
    match engine(config).load_session(Some(&valid_session()), request, now()) {
        LoadStep::CheckLiveness { record_activity, .. } => record_activity,
        _ => panic!("expected a liveness check"),
    }
}

#[test]
fn activity_policy_first_party_excludes_cross_site_fetch() {
    let h = headers(&[("sec-fetch-site", "cross-site"), ("sec-fetch-mode", "cors")]);
    assert!(!records_activity(default_config(), &h));
}

#[test]
fn activity_policy_first_party_counts_cross_site_navigation() {
    let h = headers(&[("sec-fetch-site", "cross-site"), ("sec-fetch-mode", "navigate")]);
    assert!(records_activity(default_config(), &h));
}

#[test]
fn activity_policy_first_party_counts_same_origin_fetch() {
    let h = headers(&[("sec-fetch-site", "same-origin"), ("sec-fetch-mode", "cors")]);
    assert!(records_activity(default_config(), &h));
}

#[test]
fn activity_policy_navigations_only_excludes_same_origin_fetch() {
    let h = headers(&[("sec-fetch-site", "same-origin"), ("sec-fetch-mode", "cors")]);
    let config = default_config().activity_policy(ActivityPolicy::NavigationsOnly);
    assert!(!records_activity(config, &h));
}

#[test]
fn token_expired_no_refresh_token_clears_session() {
    let session = session_with(ago(Duration::from_mins(1)), None, now());
    assert_eq!(
        end_of_load(&session, default_config()),
        LoadStep::Delete(TeardownReason::NoRefreshToken)
    );
}

fn refreshable_session(token_expiry: Timestamp) -> SessionState {
    session_with(token_expiry, Some("test_refresh"), now())
}

fn drive_refresh(session: &SessionState, answers: &[ExchangeOutcome]) -> Vec<LoadStep> {
    drive_load(
        &engine(default_config()),
        &HeaderMap::new(),
        Some(session),
        LivenessVerdict::Untracked,
        answers,
    )
}

fn exchanges(steps: &[LoadStep]) -> usize {
    steps.iter().filter(|s| matches!(s, LoadStep::Exchange { .. })).count()
}

#[test]
fn token_expired_refresh_fails_clears_session() {
    let steps = drive_refresh(&refreshable_session(ago(Duration::from_mins(1))), &[REJECTED]);
    assert_eq!(
        *steps.last().unwrap(),
        LoadStep::Delete(TeardownReason::RefreshRejected)
    );
}

#[test]
fn refresh_retries_when_error_is_retryable() {
    let session = refreshable_session(ago(Duration::from_mins(1)));
    let steps = drive_refresh(&session, &[TRANSIENT; REFRESH_MAX_ATTEMPTS as usize]);
    assert_eq!(exchanges(&steps), REFRESH_MAX_ATTEMPTS as usize);
}

#[test]
fn refresh_does_not_retry_when_error_is_non_retryable() {
    let session = refreshable_session(ago(Duration::from_mins(1)));
    assert_eq!(exchanges(&drive_refresh(&session, &[REJECTED])), 1);
}

#[test]
fn refresh_success_persists_eagerly() {
    let session = refreshable_session(ago(Duration::from_mins(1)));
    for answers in [
        &[ExchangeOutcome::Refreshed][..],
        &[TRANSIENT, ExchangeOutcome::Refreshed][..],
    ] {
        let steps = drive_refresh(&session, answers);
        assert_eq!(*steps.last().unwrap(), LoadStep::Persist);
    }
    let tr = TokenResponse {
        expires_in: Some(3600),
        refresh_token: None,
        ..TokenResponse::bearer("access-token", now())
    };
    let refreshed = session.refreshed(&tr, Duration::from_hours(1), now());
    let loaded = LoadedSession::persisted(refreshed, tr, Ok(vec!["s=1".to_owned()]));
    let expiry = loaded.session().unwrap().token_expiry;
    assert!(expiry.nanos > now().plus(Duration::from_mins(30)).nanos);
    match loaded {
        LoadedSession::Active { set_cookies, .. } => {
            assert_eq!(set_cookies.len(), 1);
            assert_eq!(set_cookies.into_headers(), vec!["s=1"]);
        }
        _ => panic!("expected an active session"),
    }
}

#[test]
fn refresh_success_with_failing_save_defers_persistence() {
    let tr = TokenResponse {
        expires_in: Some(3600),
        refresh_token: None,
        ..TokenResponse::bearer("access-token", now())
    };
    let failed = Err(SessionError::from(SessionErrorKind::Unavailable));
    let session = refreshable_session(ago(Duration::from_mins(1)));
    let refreshed = session.refreshed(&tr, Duration::from_hours(1), now());
    let loaded = LoadedSession::persisted(refreshed, tr, failed);
    assert!(loaded.session().is_some());
    match loaded {
        LoadedSession::ActivePending { pending } => {
            // The refresh itself was applied; only persistence is outstanding.
            let expiry = pending.session().token_expiry;
            assert!(expiry.nanos > now().plus(Duration::from_mins(30)).nanos);
            let shared = pending.session_arc();
            let (session, owed) = pending.commit();
            assert_eq!(session.token_expiry, shared.token_expiry);
            assert_eq!(owed.expires_in, Some(3600));
        }
        _ => panic!("expected a pending session"),
    }
}

#[test]
fn owed_persist_can_be_abandoned() {
    let tr = TokenResponse {
        expires_in: None,
        refresh_token: None,
        ..TokenResponse::bearer("access-token", now())
    };
    PendingPersist::new(valid_session(), tr).abandon();
}

#[test]
fn transient_refresh_failure_with_valid_token_retains_session() {
    // Token expires 15s from now — inside the 30s refresh margin but still
    // valid. A transient refresh failure must not log the user out.
    let session = refreshable_session(now().plus(Duration::from_secs(15)));
    let steps = drive_refresh(&session, &[TRANSIENT; 3]);
    assert_eq!(*steps.last().unwrap(), LoadStep::Serve);
    assert_eq!(exchanges(&steps), REFRESH_MAX_ATTEMPTS as usize);
}

#[test]
fn non_retryable_refresh_failure_clears_session_even_with_valid_token() {
    let session = refreshable_session(now().plus(Duration::from_secs(15)));
    assert_eq!(
        *drive_refresh(&session, &[REJECTED]).last().unwrap(),
        LoadStep::Delete(TeardownReason::RefreshRejected)
    );
}

#[test]
fn transient_refresh_failure_with_expired_token_retains_session_unavailable() {
    let session = refreshable_session(ago(Duration::from_mins(1)));
    assert_eq!(
        *drive_refresh(&session, &[TRANSIENT; 3]).last().unwrap(),
        LoadStep::RefreshUnavailable
    );
}

#[test]
fn refresh_outcomes_are_counted() {
    let e = engine(default_config());
    let later = now().plus(Duration::from_secs(15));
    for (attempt, answer, expiry, expected) in [
        (1, ExchangeOutcome::Refreshed, now(), Some("ok")),
        (3, TRANSIENT, later, Some("failed_retained")),
        (3, TRANSIENT, now(), Some("failed_unavailable")),
        (1, TRANSIENT, now(), None),
        (1, REJECTED, now(), None),
    ] {
        let (_, counters) = e.refresh_or_clear(attempt, answer, expiry, now());
        let outcome = counters.first().map(|c| c.labels[0].value.as_str());
        assert_eq!(outcome, expected);
    }
}

#[test]
fn teardowns_are_counted_and_clear_the_cookies() {
    let e = engine(default_config());
    let (loaded, counters) = e.delete_best_effort::<SessionState>(
        TeardownReason::RefreshRejected,
        Some(vec!["session=; Max-Age=0".to_owned()]),
    );
    match loaded {
        LoadedSession::Cleared { reason, clears } => {
            assert_eq!(reason, TeardownReason::RefreshRejected);
            assert_eq!(clears.into_headers(), vec!["session=; Max-Age=0"]);
        }
        _ => panic!("expected a cleared session"),
    }
    assert_eq!(counters.len(), 2);
    assert_eq!(counters[0].name, "huskarl.session.refresh");
    assert_eq!(labels(&counters[0]), vec![("outcome", "failed")]);
    assert_eq!(counters[1].name, "huskarl.session.teardown");
    assert_eq!(labels(&counters[1]), vec![("reason", "refresh_rejected")]);
    // A delete that failed leaves nothing to clear; the teardown stands.
    let (loaded, counters) =
        e.delete_best_effort::<SessionState>(TeardownReason::IdleTimeout, None);
    assert!(loaded.session().is_none());
    match loaded {
        LoadedSession::Cleared { clears, .. } => clears.discard(),
        _ => panic!("expected a cleared session"),
    }
    assert_eq!(labels(&counters[0]), vec![("reason", "idle_timeout")]);
    assert_eq!(
        TeardownReason::NoRefreshToken.as_str(),
        "no_refresh_token"
    );
}

// -- Clock skew --

fn load_with_created_at(created_at: Timestamp) -> LoadStep {
    end_of_load(
        &session_with(now().plus(Duration::from_hours(1)), None, created_at),
        default_config(),
    )
}

#[test]
fn small_future_skew_is_tolerated() {
    let created_at = now().plus(Duration::from_secs(10));
    assert_eq!(load_with_created_at(created_at), LoadStep::Serve);
}

#[test]
fn future_created_at_clears_session() {
    let created_at = now().plus(Duration::from_hours(1));
    assert_eq!(
        load_with_created_at(created_at),
        LoadStep::Delete(TeardownReason::ClockSkew)
    );
}

#[test]
fn skew_just_under_limit_is_tolerated() {
    let created_at = now().plus(Duration::from_secs(55));
    assert_eq!(load_with_created_at(created_at), LoadStep::Serve);
    assert_eq!(Duration::from_secs(60).nanos, MAX_CLOCK_SKEW_NANOS);
}

#[test]
fn skew_just_over_limit_clears_session() {
    let created_at = now().plus(Duration::from_secs(70));
    assert_eq!(
        load_with_created_at(created_at),
        LoadStep::Delete(TeardownReason::ClockSkew)
    );
}

// -- Logout --

fn logout_location(config: LoginConfigBuilder, id_token: Option<&str>) -> String {
    let e = engine(config);
    let logout = e.config.logout.as_ref().unwrap();
    match e.logout_location(logout, id_token, "client") {
        Ok(location) => location,
        Err(reply) => panic!("{}", reply.message),
    }
}

#[test]
fn logout_without_session_redirects_to_base_url() {
    let e = engine(logout_config(None, None));
    assert!(e.handle_logout(&HeaderMap::new()).is_none());
    let location = logout_location(logout_config(None, None), None);
    let r = e.logout_redirect(location, None);
    assert_eq!(r.status(), 303);
    let hdrs = r.headers();
    assert_eq!(value_of(&hdrs, "location"), Some("https://app.example.com/"));
    assert_eq!(value_of(&hdrs, "cache-control"), Some("no-store"));
    assert!(set_cookies(&hdrs).is_empty());
}

#[test]
fn logout_clears_the_deleted_session() {
    let e = engine(logout_config(None, None));
    let r = e.logout_redirect("/".to_owned(), Some(vec!["session=; Max-Age=0".to_owned()]));
    let (status, hdrs, body) = r.into_parts();
    assert_eq!(status, 303);
    assert_eq!(set_cookies(&hdrs), vec!["session=; Max-Age=0"]);
    assert!(body.is_empty());
}

#[test]
fn logout_redirects_to_configured_post_logout_uri() {
    let config = logout_config(None, Some("https://app.example.com/signed-out"));
    assert_eq!(logout_location(config, None), "https://app.example.com/signed-out");
}

#[test]
fn logout_end_session_url_includes_client_id_without_id_token() {
    let loc = logout_location(logout_config(Some("https://auth.example.com/logout"), None), None);
    assert!(loc.contains("client_id=client"), "got: {loc}");
    assert!(loc.contains("post_logout_redirect_uri="), "got: {loc}");
    assert!(!loc.contains("id_token_hint="), "got: {loc}");
}

#[test]
fn logout_end_session_url_carries_the_id_token_first() {
    let loc = logout_location(
        logout_config(Some("https://auth.example.com/logout?tenant=1"), None),
        Some("a.b.c"),
    );
    assert_eq!(
        loc,
        "https://auth.example.com/logout?tenant=1&id_token_hint=a.b.c&client_id=client\
         &post_logout_redirect_uri=https%3A%2F%2Fapp.example.com%2F"
    );
}

#[test]
fn post_logout_redirect_uri_is_sent_exactly_not_normalized() {
    let loc = logout_location(
        logout_config(
            Some("https://auth.example.com/logout"),
            Some("https://app.example.com"),
        ),
        None,
    );
    assert!(
        loc.ends_with("post_logout_redirect_uri=https%3A%2F%2Fapp.example.com"),
        "got: {loc}"
    );
    assert!(!loc.contains("app.example.com%2F"), "got: {loc}");
}

#[test]
fn logout_rejects_cross_site_request_without_deleting_session() {
    let e = engine(logout_config(None, None));
    let reply = e.handle_logout(&headers(&[("sec-fetch-site", "cross-site")])).unwrap();
    let r = rendered(reply);
    assert_eq!(r.status(), 403);
    assert!(value_of(&r.headers(), "location").is_none());
}

#[test]
fn logout_allows_same_origin_request() {
    let e = engine(logout_config(None, None));
    assert!(e.handle_logout(&headers(&[("sec-fetch-site", "same-origin")])).is_none());
}

#[test]
fn end_session_parameters_are_optional_and_encoded() {
    let endpoint = "https://auth.example.com/logout".parse().unwrap();
    assert_eq!(
        build_end_session_url(&endpoint, None, Some("a b&c"), None).as_deref(),
        Some("https://auth.example.com/logout?client_id=a+b%26c")
    );
    assert_eq!(
        append_query(&endpoint, "x=1"),
        "https://auth.example.com/logout?x=1"
    );
}

// -- Responses --

#[test]
fn default_persist_failure_policy_maps_kinds_and_is_no_store() {
    let policy = DefaultPersistFailurePolicy;
    for (kind, expected) in [
        (SessionErrorKind::Conflict, 409),
        (SessionErrorKind::Crypto, 500),
        (SessionErrorKind::Encoding, 500),
        (SessionErrorKind::Store, 500),
        (SessionErrorKind::Unavailable, 503),
        (SessionErrorKind::Gone, 503),
    ] {
        let err = SessionError::from(kind);
        let resp = policy
            .handle(&err)
            .expect("default policy replaces the response");
        assert_eq!(resp.status(), expected, "kind {kind:?}");
        // Session-adjacent responses are never cacheable.
        let no_store = resp
            .headers()
            .iter()
            .any(|h| h.name == "cache-control" && h.value == "no-store");
        assert!(no_store, "persist-failure response must be no-store");
    }
}

#[test]
fn rendered_errors_are_plain_text_and_not_cacheable() {
    let e = engine(default_config());
    let r = rendered(e.render_error(503, "try again"));
    assert_eq!(r.status(), 503);
    let (_, hdrs, body) = r.into_parts();
    assert_eq!(
        value_of(&hdrs, "content-type"),
        Some("text/plain; charset=utf-8")
    );
    assert_eq!(value_of(&hdrs, "cache-control"), Some("no-store"));
    assert_eq!(body, b"try again".to_vec());
}

#[test]
fn empty_cookie_set_owes_nothing() {
    assert!(SetCookies::default().is_empty());
    assert_eq!(SetCookies::default().len(), 0);
}

// -- Lifetimes and retries over more than one request --

#[test]
fn refreshing_does_not_extend_a_bounded_session() {
    let cap = Duration::from_hours(8);
    let session = session_with(
        ago(Duration::from_hours(1)),
        Some("rt"),
        ago(Duration::from_hours(9)),
    )
    .refreshed(
        &TokenResponse {
            expires_in: Some(3600),
            refresh_token: None,
            ..TokenResponse::bearer("access-token", now())
        },
        Duration::from_hours(1),
        now(),
    );
    assert_eq!(session.token_expiry, now().plus(Duration::from_hours(1)));
    let step = end_of_load(&session, config_with(SessionLifetime::Bounded(cap)));
    assert_eq!(step, LoadStep::Delete(TeardownReason::MaxLifetime));
}

#[test]
fn retained_session_refreshes_anew_on_the_next_request() {
    let e = engine(default_config());
    let session = session_with(ago(Duration::from_hours(1)), Some("rt"), now());
    for _ in 0..2 {
        let steps = drive_load(
            &e,
            &HeaderMap::new(),
            Some(&session),
            LivenessVerdict::Untracked,
            &[TRANSIENT, TRANSIENT, TRANSIENT],
        );
        assert!(steps.contains(&LoadStep::Exchange { attempt: 1 }));
        assert_eq!(steps.last(), Some(&LoadStep::RefreshUnavailable));
    }
}

#[test]
fn token_without_expiry_is_served_when_fresh() {
    let e = engine(default_config());
    let lifetime = e.config.default_token_lifetime;
    let session = session_with(now().plus(lifetime), Some("rt"), now());
    let step = e.load_judged(LivenessVerdict::Untracked, &session, now());
    assert_eq!(step, LoadStep::Serve);
}

#[test]
fn record_past_its_storage_deadline_is_torn_down() {
    let mut session = session_with(
        ago(Duration::from_hours(1)),
        None,
        ago(Duration::from_hours(30)),
    );
    session.expire_at = Some(ago(Duration::from_hours(2)));
    let deadline =
        session.storage_deadline(ago(Duration::from_hours(29)), Duration::from_hours(24));
    assert_eq!(deadline, ago(Duration::from_hours(2)));
    assert_eq!(
        end_of_load(&session, default_config()),
        LoadStep::Delete(TeardownReason::MaxLifetime)
    );
}

#[test]
fn retries_wait_and_count_up() {
    let e = engine(default_config());
    let (delay, step) = e.refresh_with_retry(1);
    assert_eq!(step, LoadStep::Exchange { attempt: 2 });
    assert!(delay.nanos >= 100_000_000 && delay.nanos < 150_000_000);
    let (delay, step) = e.refresh_with_retry(2);
    assert_eq!(step, LoadStep::Exchange { attempt: 3 });
    assert!(delay.nanos >= 200_000_000 && delay.nanos < 250_000_000);
}

#[test]
fn started_login_is_resumed_by_its_callback() {
    let e = engine(default_config());
    let sealed = [7u8; 60];
    let cookie = e.build_login_state_cookie("teststate", &sealed).unwrap();
    let pair = cookie.split(';').next().unwrap();
    let request = headers(&[("cookie", pair)]);
    match e.handle_callback("code=abc&state=teststate&iss=https%3A%2F%2Fas", &request) {
        CallbackStep::Unseal { flow, bundle, aad } => {
            assert_eq!(bundle, sealed.to_vec());
            assert_eq!(aad, b"login_state:teststate".to_vec());
            assert_eq!(
                (flow.code(), flow.state(), flow.iss()),
                ("abc", "teststate", Some("https://as"))
            );
            let opened = Some(Some(("wanted", now().plus(Duration::from_secs(60)))));
            assert_eq!(e.decode_login_state(&flow, opened, now()).ok(), Some("wanted"));
        }
        _ => panic!("expected a login state to open"),
    }
}

#[test]
fn engine_keeps_the_rest_of_the_store() {
    let store = StoreBackedSessionStore::with_defaults(
        "session".parse().unwrap(),
        "/".parse().unwrap(),
    )
    .with_liveness(LivenessConfig::new(None, None).unwrap());
    let e = LoginEngine::new(default_config().build().unwrap(), store, Some("web"));
    assert!(e.session_store.tracks_liveness());
    assert_eq!(e.session_store.cookie_name(), "__Host-session");
}

#[test]
fn id_token_of_a_session_is_the_logout_hint() {
    let e = engine(logout_config(Some("https://as.example.com/end"), None));
    let logout = e.config.logout.as_ref().unwrap();
    let response = TokenResponse {
        id_token: Some("raw.id.token".to_owned()),
        ..TokenResponse::bearer("access-token", now())
    };
    let location = match e.logout_location(logout, response.id_token.as_deref(), "client") {
        Ok(location) => location,
        Err(_) => panic!("a location"),
    };
    assert!(location.contains("id_token_hint=raw.id.token"), "{location}");
}

// -- A whole login and a whole load, with what they count --

/// Stands for sealing: the plaintext behind the associated data and a mark.
fn seal(plaintext: &[u8], aad: &[u8]) -> Vec<u8> {
    [aad, &[0], plaintext].concat()
}

/// Stands for unsealing: only the same associated data opens it.
fn unseal(bundle: &[u8], aad: &[u8]) -> Option<Vec<u8>> {
    bundle.strip_prefix(seal(&[], aad).as_slice()).map(<[u8]>::to_vec)
}

/// The login-state cookie value of a flow.
fn seal_login_cookie(state: &str, original_url: &str) -> String {
    URL_SAFE_NO_PAD.encode(seal(original_url.as_bytes(), &login_state_aad(state)))
}

/// How a callback ends whose code is accepted or not, and what it counts.
fn run_callback(
    query: &str,
    request: &HeaderMap,
    session: Option<&SessionState>,
    accepted: bool,
) -> (LoginResponse, Vec<(&'static str, Vec<(&'static str, String)>)>) {
    let e = engine(default_config());
    let (response, counter) = match e.handle_callback(query, request) {
        CallbackStep::Fail(reply, c) => (rendered(reply), c),
        CallbackStep::FindSession => match e.answer_without_state(session, now()) {
            (Reply::Response(r), c) => (r, c),
            (Reply::Error(reply), c) => (rendered(reply), c),
        },
        CallbackStep::Unseal { flow, bundle, aad } => {
            let opened = unseal(&bundle, &aad).map(|p| String::from_utf8(p).ok().map(|u| (u, now())));
            match e.decode_login_state(&flow, opened, now()) {
                Err((reply, c)) => (rendered(reply), c),
                Ok(_) if !accepted => {
                    let (reply, c) = e.exchange_failed(&flow);
                    (rendered(reply), c)
                }
                Ok(url) => e.build_callback_redirect(&url, request, vec!["s=1".to_owned()]),
            }
        }
    };
    (response, counted(&[counter]))
}

/// Counters by name, with their labels.
fn counted(counters: &[Counter]) -> Vec<(&'static str, Vec<(&'static str, String)>)> {
    counters
        .iter()
        .map(|c| (c.name, c.labels.iter().map(|l| (l.key, l.value.clone())).collect()))
        .collect()
}

fn counts_completion(
    counters: &[(&'static str, Vec<(&'static str, String)>)],
    outcome: &str,
    error: &str,
) {
    let labels = vec![("outcome", outcome.to_owned()), ("error", error.to_owned())];
    assert_eq!(counters, &[("huskarl.login.complete", labels)]);
}

/// What a whole load of `found` counts, and the step it ends in.
fn run_load(
    found: &SessionState,
    verdict: LivenessVerdict,
    answers: &[ExchangeOutcome],
) -> (LoadStep, Vec<(&'static str, String)>) {
    let e = engine(default_config());
    let mut counters = Vec::new();
    let mut answers = answers.iter();
    let mut step = e.load_session(Some(found), &HeaderMap::new(), now());
    loop {
        step = match step {
            LoadStep::CheckLiveness { .. } => e.load_judged(verdict, found, now()),
            LoadStep::Exchange { attempt } => {
                let answer = *answers.next().unwrap();
                let (next, more) = e.refresh_or_clear(attempt, answer, found.token_expiry, now());
                counters.extend(more);
                next
            }
            LoadStep::Retry { attempt } => e.refresh_with_retry(attempt).1,
            LoadStep::Delete(reason) => {
                let (loaded, more) = e.delete_best_effort::<SessionState>(reason, None);
                assert!(loaded.session().is_none());
                counters.extend(more);
                break;
            }
            _ => break,
        };
    }
    let counted = counters.iter().map(|c| (c.name, c.labels[0].value.clone())).collect();
    (step, counted)
}

fn minute_ago() -> Timestamp {
    ago(Duration::from_mins(1))
}

#[test]
fn redirect_to_login_navigation_sets_login_state_cookie() {
    let e = engine(default_config());
    let original_url = match e.redirect_to_login(&nav_headers(), "/protected", None) {
        LoginStart::Start { original_url } => original_url,
        LoginStart::Refuse(_) => panic!("a navigation starts the flow"),
    };
    let sealed = seal(original_url.as_bytes(), &login_state_aad("mystate"));
    let cookie = e.build_login_state_cookie("mystate", &sealed).unwrap();
    match e.redirect_to_as("https://auth.example.com/authorize", cookie) {
        Ok((r, _)) => {
            assert!(set_cookies(&r.headers()).iter().any(|s| s.contains("huskarl_login_")));
        }
        Err(err) => panic!("{}", err.message()),
    }
}

#[test]
fn logout_with_session_deletes_session() {
    let e = engine(logout_config(None, None));
    assert_eq!(e.try_handle_login_route("POST", "/logout"), Route::Logout);
    let request = headers(&[("cookie", "__Host-session.0=x; __Host-session.1=y; other=z")]);
    assert!(e.handle_logout(&request).is_none());
    let deleted = e.session_store.delete_headers(&request);
    let location = logout_location(logout_config(None, None), None);
    let r = e.logout_redirect(location, Some(deleted));
    let hdrs = r.headers();
    let cleared: Vec<&str> =
        set_cookies(&hdrs).iter().map(|s| s.split('=').next().unwrap()).collect();
    assert_eq!(
        cleared,
        vec!["__Host-session.kid", "__Host-session.0", "__Host-session.1"]
    );
    assert!(set_cookies(&hdrs).iter().all(|s| s.ends_with("Max-Age=0")));
}

#[test]
fn load_session_store_error_bubbles_up() {
    // An opaque backing-store failure is classified `Unavailable`, so callers
    // treat it as retryable.
    let err = to_session_err("store down");
    assert_eq!(err.kind(), SessionErrorKind::Unavailable);
    assert!(err.is_retryable());
    assert_eq!(err.source(), Some("store down"));
}

#[test]
fn refresh_unavailable_session_recovers_when_the_as_does() {
    let session = refreshable_session(minute_ago());
    let untracked = LivenessVerdict::Untracked;
    let (step, _) = run_load(&session, untracked, &[TRANSIENT, TRANSIENT, TRANSIENT]);
    assert_eq!(step, LoadStep::RefreshUnavailable);
    // The same (retained) session against a recovered authorization server.
    let (step, _) = run_load(&session, untracked, &[ExchangeOutcome::Refreshed]);
    assert_eq!(step, LoadStep::Persist);
    let response = TokenResponse {
        expires_in: Some(3600),
        ..TokenResponse::bearer("access-token", now())
    };
    let recovered = session.refreshed(&response, Duration::from_hours(1), now());
    assert!(recovered.token_expiry.nanos > now().plus(Duration::from_mins(30)).nanos);
    match LoadedSession::persisted(recovered, response, Ok(vec![])) {
        LoadedSession::Active { .. } => {}
        _ => panic!("expected an active session"),
    }
}

#[test]
fn callback_mismatched_state_aad_returns_400() {
    // Sealed for "right_state", presented under state "wrong_state".
    let sealed = seal_login_cookie("right_state", "https://app.example.com/page");
    let request = headers_with_login_cookie("wrong_state", &sealed);
    let (r, counters) = run_callback("code=authcode&state=wrong_state", &request, None, true);
    assert_eq!(r.status(), 400);
    counts_completion(&counters, "state_invalid", "none");
    // Under its own state it is resumed.
    let request = headers_with_login_cookie("right_state", &sealed);
    let (r, _) = run_callback("code=authcode&state=right_state", &request, None, true);
    assert_eq!(r.status(), 302);
    assert_eq!(value_of(&r.headers(), "location"), Some("https://app.example.com/page"));
}

#[test]
fn persist_session_retries_the_deferred_refresh_save() {
    let response = TokenResponse {
        expires_in: Some(3600),
        ..TokenResponse::bearer("access-token", now())
    };
    let lifetime = Duration::from_hours(1);
    let session = refreshable_session(minute_ago()).refreshed(&response, lifetime, now());
    let failed = Err(SessionError::from(SessionErrorKind::Unavailable));
    let pending = match LoadedSession::persisted(session, response, failed) {
        LoadedSession::ActivePending { pending } => pending,
        _ => panic!("expected an owed save"),
    };
    // The store recovers; the owed refresh is re-applied and kept.
    let (shared, owed) = pending.commit();
    let again = shared.refreshed(&owed, lifetime, now());
    assert!(again.token_expiry.nanos > now().plus(Duration::from_mins(30)).nanos);
    let saved = engine(default_config())
        .session_store
        .save_session(b"sealed", None, &HeaderMap::new())
        .unwrap();
    assert!(saved.headers[0].starts_with("__Host-session.0="));
}

#[test]
fn metrics_login_start_ok_on_nav_redirect() {
    let e = engine(default_config());
    let cookie = e.build_login_state_cookie("mystate", b"sealed").unwrap();
    match e.redirect_to_as("https://auth.example.com/authorize", cookie) {
        Ok((_, c)) => assert_eq!(
            counted(&[c]),
            vec![("huskarl.login.start", vec![("outcome", "ok".to_owned())])]
        ),
        Err(err) => panic!("{}", err.message()),
    }
}

#[test]
fn metrics_no_login_start_on_api_401() {
    // A refusal carries no counter.
    let e = engine(default_config());
    assert!(matches!(
        e.redirect_to_login(&api_headers(), "/api", None),
        LoginStart::Refuse(_)
    ));
}

#[test]
fn metrics_login_start_error_when_grant_start_fails() {
    let (_, c) = engine(default_config()).start_failed();
    assert_eq!(
        counted(&[c]),
        vec![("huskarl.login.start", vec![("outcome", "error".to_owned())])]
    );
}

#[test]
fn metrics_callback_invalid_request_on_missing_params() {
    let (_, counters) = run_callback("", &HeaderMap::new(), None, true);
    counts_completion(&counters, "invalid_request", "none");
}

#[test]
fn metrics_callback_as_denied_carries_error_code() {
    let (_, counters) = run_callback("error=access_denied", &HeaderMap::new(), None, true);
    counts_completion(&counters, "as_denied", "access_denied");
}

#[test]
fn metrics_callback_already_authenticated_on_stale_callback_with_session() {
    let session = valid_session();
    let query = "code=authcode&state=mystate";
    let (r, counters) = run_callback(query, &HeaderMap::new(), Some(&session), true);
    assert_eq!(r.status(), 302);
    counts_completion(&counters, "already_authenticated", "none");
}

#[test]
fn metrics_callback_invalid_request_on_missing_state_cookie() {
    let (r, counters) = run_callback("code=authcode&state=mystate", &HeaderMap::new(), None, true);
    assert_eq!(r.status(), 400);
    counts_completion(&counters, "invalid_request", "none");
}

#[test]
fn metrics_callback_state_invalid_on_tampered_bundle() {
    let fake = URL_SAFE_NO_PAD.encode(b"not an AEAD bundle");
    let request = headers_with_login_cookie("teststate", &fake);
    let (_, counters) = run_callback("code=authcode&state=teststate", &request, None, true);
    counts_completion(&counters, "state_invalid", "none");
}

#[test]
fn metrics_callback_ok_on_successful_login() {
    let sealed = seal_login_cookie("valid_state", "https://app.example.com/");
    let request = headers_with_login_cookie("valid_state", &sealed);
    let (_, counters) = run_callback("code=authcode&state=valid_state", &request, None, true);
    counts_completion(&counters, "ok", "none");
}

#[test]
fn metrics_callback_token_exchange_failed_when_grant_complete_fails() {
    let sealed = seal_login_cookie("valid_state", "https://app.example.com/");
    let request = headers_with_login_cookie("valid_state", &sealed);
    let (_, counters) = run_callback("code=authcode&state=valid_state", &request, None, false);
    counts_completion(&counters, "token_exchange_failed", "none");
}

#[test]
fn metrics_refresh_no_refresh_token_when_none_available() {
    let session = session_with(minute_ago(), None, now());
    let (step, counters) = run_load(&session, LivenessVerdict::Untracked, &[]);
    assert_eq!(step, LoadStep::Delete(TeardownReason::NoRefreshToken));
    assert_eq!(
        counters,
        vec![
            ("huskarl.session.refresh", "no_refresh_token".to_owned()),
            ("huskarl.session.teardown", "no_refresh_token".to_owned()),
        ]
    );
}

#[test]
fn metrics_refresh_failed_when_grant_refresh_fails() {
    let session = refreshable_session(minute_ago());
    let (_, counters) = run_load(&session, LivenessVerdict::Untracked, &[REJECTED]);
    assert_eq!(
        counters,
        vec![
            ("huskarl.session.refresh", "failed".to_owned()),
            ("huskarl.session.teardown", "refresh_rejected".to_owned()),
        ]
    );
}

#[test]
fn metrics_teardown_on_idle_timeout() {
    let (_, counters) = run_load(&valid_session(), LivenessVerdict::Expired, &[]);
    assert_eq!(counters, vec![("huskarl.session.teardown", "idle_timeout".to_owned())]);
}

#[test]
fn metrics_refresh_failed_retained_on_transient_failure_with_valid_token() {
    let session = refreshable_session(now().plus(Duration::from_secs(15)));
    let (step, counters) =
        run_load(&session, LivenessVerdict::Active, &[TRANSIENT, TRANSIENT, TRANSIENT]);
    assert_eq!(step, LoadStep::Serve);
    assert_eq!(counters, vec![("huskarl.session.refresh", "failed_retained".to_owned())]);
}

#[test]
fn metrics_refresh_failed_unavailable_on_transient_failure_with_expired_token() {
    let session = refreshable_session(minute_ago());
    let (_, counters) =
        run_load(&session, LivenessVerdict::Untracked, &[TRANSIENT, TRANSIENT, TRANSIENT]);
    assert_eq!(counters, vec![("huskarl.session.refresh", "failed_unavailable".to_owned())]);
}

#[test]
fn metrics_refresh_ok_on_successful_refresh() {
    let session = refreshable_session(minute_ago());
    let (_, counters) =
        run_load(&session, LivenessVerdict::Untracked, &[ExchangeOutcome::Refreshed]);
    assert_eq!(counters, vec![("huskarl.session.refresh", "ok".to_owned())]);
}
