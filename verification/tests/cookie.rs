use base64::engine::general_purpose::URL_SAFE_NO_PAD;
use base64::Engine as _;
use http::{header, HeaderMap};
use huskarl_login::config::RoutePath;
use huskarl_login::cookie::{
    cookie_attrs, default_cookie_max_age, encode_kid, first_unseal, get_cookie, get_kid_cookie,
    is_valid_oauth_state, kid_cookie_name, login_state_cookie_name,
    login_state_cookie_name_prefix, login_state_cookie_names, normalize_kid_label,
    session_cookie_name, unseal_with_kid_fallback, CookieName, CookieSealer, UnsealAttempt,
    UnsealStep, DEFAULT_LOGIN_COOKIE_PREFIX, MAX_OAUTH_STATE_LEN,
};
use huskarl_login::metrics::DecryptResult;
use huskarl_login::time::Duration;

#[test]
fn get_cookie_present() {
    let mut headers = HeaderMap::new();
    headers.insert(header::COOKIE, "foo=bar".parse().unwrap());
    assert_eq!(get_cookie(&headers, "foo").as_deref(), Some("bar"));
}

#[test]
fn get_cookie_missing() {
    let mut headers = HeaderMap::new();
    headers.insert(header::COOKIE, "foo=bar".parse().unwrap());
    assert_eq!(get_cookie(&headers, "baz"), None);
}

#[test]
fn get_cookie_multiple_pairs() {
    let mut headers = HeaderMap::new();
    headers.insert(header::COOKIE, "a=1; b=2; c=3".parse().unwrap());
    assert_eq!(get_cookie(&headers, "a").as_deref(), Some("1"));
    assert_eq!(get_cookie(&headers, "b").as_deref(), Some("2"));
    assert_eq!(get_cookie(&headers, "c").as_deref(), Some("3"));
}

#[test]
fn get_cookie_whitespace_trimmed() {
    let mut headers = HeaderMap::new();
    headers.insert(header::COOKIE, " foo = bar ".parse().unwrap());
    assert_eq!(get_cookie(&headers, "foo").as_deref(), Some("bar"));
}

#[test]
fn get_cookie_empty_headers() {
    let headers = HeaderMap::new();
    assert_eq!(get_cookie(&headers, "foo"), None);
}

#[test]
fn get_cookie_multiple_cookie_headers() {
    let mut headers = HeaderMap::new();
    headers.append(header::COOKIE, "a=1".parse().unwrap());
    headers.append(header::COOKIE, "b=2".parse().unwrap());
    assert_eq!(get_cookie(&headers, "a").as_deref(), Some("1"));
    assert_eq!(get_cookie(&headers, "b").as_deref(), Some("2"));
}

#[test]
fn get_cookie_value_with_equals() {
    let mut headers = HeaderMap::new();
    headers.insert(header::COOKIE, "token=abc=def".parse().unwrap());
    // split_once on '=' means value is "abc=def"
    assert_eq!(get_cookie(&headers, "token").as_deref(), Some("abc=def"));
}

// -- login_state_cookie_name tests --

#[test]
fn cookie_name_secure_root_uses_host_prefix() {
    let name = login_state_cookie_name("abc123", true, "/", DEFAULT_LOGIN_COOKIE_PREFIX);
    assert!(name.starts_with("__Host-"));
}

#[test]
fn cookie_name_secure_subpath_uses_secure_prefix() {
    let name = login_state_cookie_name("abc123", true, "/app", DEFAULT_LOGIN_COOKIE_PREFIX);
    assert!(name.starts_with("__Secure-"));
}

#[test]
fn cookie_name_insecure_no_prefix() {
    let name = login_state_cookie_name("abc123", false, "/", DEFAULT_LOGIN_COOKIE_PREFIX);
    assert!(!name.starts_with("__"));
}

#[test]
fn cookie_name_is_prefix_plus_state() {
    for (secure, path) in [(true, "/"), (true, "/app"), (false, "/")] {
        let name = login_state_cookie_name("abc123", secure, path, DEFAULT_LOGIN_COOKIE_PREFIX);
        let prefix = login_state_cookie_name_prefix(secure, path, DEFAULT_LOGIN_COOKIE_PREFIX);
        assert_eq!(name, format!("{prefix}abc123"));
    }
}

#[test]
fn cookie_name_contains_state() {
    let name = login_state_cookie_name("mystate", true, "/", DEFAULT_LOGIN_COOKIE_PREFIX);
    assert!(name.contains("mystate"));
}

// -- login_state_cookie_names tests --

#[test]
fn login_state_names_finds_all_matching_cookies() {
    let mut headers = HeaderMap::new();
    headers.insert(
        header::COOKIE,
        "__Host-huskarl_login_aaa=1; other=x; __Host-huskarl_login_bbb=2"
            .parse()
            .unwrap(),
    );
    let names = login_state_cookie_names(&headers, "__Host-huskarl_login_");
    assert_eq!(
        names,
        vec!["__Host-huskarl_login_aaa", "__Host-huskarl_login_bbb"]
    );
}

#[test]
fn login_state_names_spans_multiple_cookie_headers_and_dedups() {
    let mut headers = HeaderMap::new();
    headers.append(
        header::COOKIE,
        "__Host-huskarl_login_aaa=1".parse().unwrap(),
    );
    headers.append(
        header::COOKIE,
        "__Host-huskarl_login_aaa=dup; __Host-huskarl_login_bbb=2"
            .parse()
            .unwrap(),
    );
    let names = login_state_cookie_names(&headers, "__Host-huskarl_login_");
    assert_eq!(
        names,
        vec!["__Host-huskarl_login_aaa", "__Host-huskarl_login_bbb"]
    );
}

#[test]
fn login_state_names_skips_invalid_state_suffixes() {
    // Suffixes outside the state charset (or empty) are not login-state
    // cookies this crate minted — never splice them into a Set-Cookie.
    let mut headers = HeaderMap::new();
    headers.insert(
        header::COOKIE,
        "__Host-huskarl_login_=empty; __Host-huskarl_login_a.b=dot; \
         __Host-huskarl_login_ok-1=x"
            .parse()
            .unwrap(),
    );
    let names = login_state_cookie_names(&headers, "__Host-huskarl_login_");
    assert_eq!(names, vec!["__Host-huskarl_login_ok-1"]);
}

#[test]
fn login_state_names_empty_without_matches() {
    let mut headers = HeaderMap::new();
    headers.insert(header::COOKIE, "session=abc; foo=bar".parse().unwrap());
    assert!(login_state_cookie_names(&headers, "__Host-huskarl_login_").is_empty());
}

// -- is_valid_oauth_state tests --

#[test]
fn state_accepts_alphanumeric_and_url_safe_chars() {
    assert!(is_valid_oauth_state("abc123"));
    assert!(is_valid_oauth_state("AbC-_xyz"));
}

#[test]
fn state_rejects_empty() {
    assert!(!is_valid_oauth_state(""));
}

#[test]
fn state_rejects_overly_long() {
    let long = "a".repeat(MAX_OAUTH_STATE_LEN + 1);
    assert!(!is_valid_oauth_state(&long));
}

#[test]
fn state_rejects_separators_and_specials() {
    for s in [
        "abc;def", "abc=def", "abc def", "abc\nxyz", "abc/def", "abc+def", "abc.def",
    ] {
        assert!(!is_valid_oauth_state(s), "expected reject: {s:?}");
    }
}

#[test]
fn state_rejects_non_ascii() {
    assert!(!is_valid_oauth_state("café"));
}

// -- session_cookie_name tests --

#[test]
fn session_cookie_name_prefixes_secure_root() {
    assert_eq!(session_cookie_name("sess", true, "/"), "__Host-sess");
}

#[test]
fn session_cookie_name_skips_insecure() {
    assert_eq!(session_cookie_name("sess", false, "/"), "sess");
}

#[test]
fn session_cookie_name_secure_subpath_uses_secure_prefix() {
    // A sub-path scope can't satisfy `__Host-` (which demands `Path=/`),
    // but `__Secure-` is valid and matches the login-state cookies.
    assert_eq!(session_cookie_name("sess", true, "/app"), "__Secure-sess");
}

#[test]
fn session_cookie_name_insecure_subpath_stays_bare() {
    assert_eq!(session_cookie_name("sess", false, "/app"), "sess");
}

// -- CookieName tests --

#[test]
fn cookie_name_new_accepts_and_rejects() {
    assert_eq!(
        CookieName::new("huskarl_session").unwrap().as_str(),
        "huskarl_session"
    );
    assert_eq!(CookieName::new("").unwrap_err().reason, "must not be empty");
    // Separators that would corrupt/inject into Set-Cookie.
    assert!(CookieName::new("bad;name").is_err());
    assert!(CookieName::new("a=b").is_err());
    assert!(CookieName::new("has space").is_err());
    // `.` is reserved for the chunk/kid sidecar namespace.
    assert!(CookieName::new("base.kid").is_err());
}

#[test]
fn cookie_name_rejects_explicit_security_prefixes() {
    // The prefix is derived from the deployment; an explicit one could
    // contradict it (`__Host-` on http or off `Path=/`) and browsers drop
    // such Set-Cookies silently. Browsers match prefixes
    // case-insensitively, so validation must too.
    for name in [
        "__Host-sess",
        "__Secure-sess",
        "__host-sess",
        "__HOST-sess",
        "__SeCuRe-sess",
    ] {
        let err = CookieName::new(name).unwrap_err();
        assert!(
            err.reason.contains("derived from the deployment"),
            "expected prefix rejection for {name:?}, got: {}",
            err.reason
        );
    }
    // Similar-looking names that carry no browser prefix semantics pass.
    assert!(CookieName::new("__internal").is_ok());
    assert!(CookieName::new("_Host-ish").is_ok());
}

#[test]
fn cookie_name_try_from() {
    assert!(CookieName::try_from("ok_name").is_ok());
    assert!(CookieName::try_from("bad;x".to_owned()).is_err());
    let n: CookieName = "scoped".try_into().unwrap();
    assert_eq!(n.as_str(), "scoped");
}

// -- kid sidecar tests --

#[test]
fn kid_cookie_name_suffixes_base() {
    assert_eq!(kid_cookie_name("huskarl_session"), "huskarl_session.kid");
}

#[test]
fn get_kid_cookie_decodes_present_value() {
    let mut headers = HeaderMap::new();
    let encoded = encode_kid("arn:aws:kms:us-east-1:111:key/abc");
    headers.insert(
        header::COOKIE,
        format!("huskarl_session.kid={encoded}").parse().unwrap(),
    );
    assert_eq!(
        get_kid_cookie(&headers, "huskarl_session").as_deref(),
        Some("arn:aws:kms:us-east-1:111:key/abc")
    );
}

#[test]
fn get_kid_cookie_absent_returns_none() {
    let headers = HeaderMap::new();
    assert_eq!(get_kid_cookie(&headers, "huskarl_session"), None);
}

#[test]
fn get_kid_cookie_invalid_base64_returns_none() {
    let mut headers = HeaderMap::new();
    headers.insert(
        header::COOKIE,
        "huskarl_session.kid=!!!notbase64!!!".parse().unwrap(),
    );
    assert_eq!(get_kid_cookie(&headers, "huskarl_session"), None);
}

#[test]
fn get_kid_cookie_invalid_utf8_returns_none() {
    let mut headers = HeaderMap::new();
    // base64url of [0xff, 0xfe, 0xfd] — valid base64 but not valid UTF-8.
    let bad = URL_SAFE_NO_PAD.encode([0xff_u8, 0xfe, 0xfd]);
    headers.insert(
        header::COOKIE,
        format!("huskarl_session.kid={bad}").parse().unwrap(),
    );
    assert_eq!(get_kid_cookie(&headers, "huskarl_session"), None);
}

// -- CookieSealer tests --

fn sealer() -> CookieSealer {
    CookieSealer::new(
        CookieName::new("sess").unwrap(),
        RoutePath::new("/").unwrap(),
        default_cookie_max_age(),
    )
}

#[test]
fn attributes_follow_the_deployment() {
    assert_eq!(cookie_attrs(true, "/"), "HttpOnly; SameSite=Lax; Path=/; Secure");
    assert_eq!(cookie_attrs(false, "/app"), "HttpOnly; SameSite=Lax; Path=/app");
}

#[test]
fn sealer_starts_secure_and_is_restamped() {
    let mut s = sealer();
    assert_eq!(s.cookie_name(), "__Host-sess");
    assert_eq!(
        s.cookie_attrs(),
        "HttpOnly; SameSite=Lax; Path=/; Secure; Max-Age=34560000"
    );
    s.apply_secure(false);
    assert_eq!(s.cookie_name(), "sess");
    assert_eq!(s.base_cookie_attrs(), "HttpOnly; SameSite=Lax; Path=/");
    assert_eq!(s.aad("session"), b"session:sess".to_vec());
}

#[test]
fn clamp_only_ever_lowers_the_lifetime() {
    let mut s = sealer();
    s.clamp_max_age(Duration::from_mins(1));
    assert!(s.cookie_attrs().ends_with("; Max-Age=60"));
    s.clamp_max_age(Duration::from_hours(1));
    assert!(s.cookie_attrs().ends_with("; Max-Age=60"));
}

#[test]
fn kid_header_sets_or_clears_the_sidecar() {
    let s = sealer();
    assert_eq!(
        s.build_kid_header(Some("key-1")).unwrap(),
        "__Host-sess.kid=a2V5LTE; HttpOnly; SameSite=Lax; Path=/; Secure; Max-Age=34560000"
    );
    assert_eq!(
        s.build_kid_header(None).unwrap(),
        "__Host-sess.kid=; HttpOnly; SameSite=Lax; Path=/; Secure; Max-Age=0"
    );
}

#[test]
fn unknown_kids_share_one_label() {
    assert_eq!(normalize_kid_label(Some("k1"), true), Some("k1"));
    assert_eq!(normalize_kid_label(Some("forged"), false), Some("unknown"));
    assert_eq!(normalize_kid_label(None, false), None);
}

#[test]
fn counters_carry_cookie_kid_outcome_and_instance() {
    let mut s = sealer();
    let c = s.record_encrypt(None);
    assert_eq!(c.name, "huskarl.session_cookie.encrypt");
    let labels: Vec<(&str, &str)> = c.labels.iter().map(|l| (l.key, l.value.as_str())).collect();
    assert_eq!(labels, vec![("cookie", "__Host-sess"), ("kid", "none")]);
    s.set_metrics_name(Some("main"));
    let c = s.record_decrypt(Some("forged"), false, DecryptResult::DecryptFailed);
    assert_eq!(c.name, "huskarl.session_cookie.decrypt");
    let labels: Vec<(&str, &str)> = c.labels.iter().map(|l| (l.key, l.value.as_str())).collect();
    assert_eq!(
        labels,
        vec![
            ("cookie", "__Host-sess"),
            ("kid", "unknown"),
            ("outcome", "decrypt_failed"),
            ("name", "main"),
        ]
    );
}

#[test]
fn a_failed_hint_falls_back_to_every_key() {
    assert_eq!(first_unseal(true), UnsealAttempt::Hinted);
    assert_eq!(first_unseal(false), UnsealAttempt::AllKeys);
    assert_eq!(
        unseal_with_kid_fallback(UnsealAttempt::Hinted, false),
        UnsealStep::Try(UnsealAttempt::AllKeys)
    );
    assert_eq!(
        unseal_with_kid_fallback(UnsealAttempt::Hinted, true),
        UnsealStep::Authentic
    );
    assert_eq!(
        unseal_with_kid_fallback(UnsealAttempt::AllKeys, false),
        UnsealStep::Failed
    );
}

#[test]
fn first_cookie_of_a_name_wins() {
    let mut headers = HeaderMap::new();
    headers.append(header::COOKIE, "a=1; flag; a=2".parse().unwrap());
    headers.append(header::COOKIE, "a=3".parse().unwrap());
    assert_eq!(get_cookie(&headers, "a").as_deref(), Some("1"));
    assert_eq!(get_cookie(&headers, "flag"), None);
}

#[test]
fn unreadable_cookie_headers_are_skipped() {
    let mut headers = HeaderMap::new();
    headers.append(header::COOKIE, http::HeaderValue::from_bytes(b"a=\xff").unwrap());
    headers.append(header::COOKIE, "a=2".parse().unwrap());
    assert_eq!(get_cookie(&headers, "a").as_deref(), Some("2"));
}

#[test]
fn invalid_cookie_name_message_quotes_the_name() {
    assert_eq!(
        CookieName::new("").unwrap_err().message(),
        "invalid cookie name \"\": must not be empty"
    );
}
