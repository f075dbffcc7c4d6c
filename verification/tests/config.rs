use http::{HeaderMap, HeaderName, HeaderValue};
use huskarl_login::config::{
    ActivityPolicy, ConfigError, LoginConfig, LoginConfigBuilder, LogoutConfig, RoutePath,
    SessionLifetime,
};
use huskarl_login::time::Duration;
use huskarl_login::url::EndpointUrl;

fn req(pairs: &[(&str, &str)]) -> HeaderMap {
    let mut map = HeaderMap::new();
    for (name, value) in pairs {
        map.insert(
            HeaderName::from_bytes(name.as_bytes()).unwrap(),
            HeaderValue::from_str(value).unwrap(),
        );
    }
    map
}

const DELEGATED: SessionLifetime = SessionLifetime::DelegatedToAuthorizationServer;

fn builder(
    callback_path: &str,
    session_lifetime: SessionLifetime,
    base_url: &str,
) -> LoginConfigBuilder {
    LoginConfig::builder(
        callback_path,
        vec![],
        session_lifetime,
        base_url.parse().unwrap(),
    )
}

fn default_policy_config() -> LoginConfig {
    builder("/callback", DELEGATED, "https://app.example.com")
        .build()
        .unwrap()
}

#[test]
fn login_config_secure_derived_true_for_https_base_url() {
    assert!(default_policy_config().secure);
}

#[test]
fn login_config_secure_derived_false_for_http_base_url() {
    let config = builder("/callback", DELEGATED, "http://localhost:6188")
        .build()
        .unwrap();
    assert!(!config.secure);
}

#[test]
fn delegated_session_lifetime_has_no_crate_side_bound() {
    assert_eq!(
        default_policy_config().session_lifetime.bound(),
        None,
        "delegated lifetime imposes no crate-side cap"
    );
    assert_eq!(
        SessionLifetime::Bounded(Duration::from_hours(8)).bound(),
        Some(Duration::from_hours(8))
    );
}

#[test]
fn rejects_zero_default_token_lifetime() {
    let err = builder("/callback", DELEGATED, "https://app.example.com")
        .default_token_lifetime(Duration::zero())
        .build()
        .unwrap_err();
    assert!(matches!(
        err,
        ConfigError::InvalidDuration {
            field: "default_token_lifetime",
            ..
        }
    ));
}

#[test]
fn rejects_zero_login_state_ttl() {
    let err = builder("/callback", DELEGATED, "https://app.example.com")
        .login_state_ttl(Duration::zero())
        .build()
        .unwrap_err();
    assert!(matches!(
        err,
        ConfigError::InvalidDuration {
            field: "login_state_ttl",
            ..
        }
    ));
}

#[test]
fn rejects_zero_bounded_lifetime_but_allows_delegated() {
    let err = builder("/callback", SessionLifetime::Bounded(Duration::zero()), "https://app.example.com")
        .build()
        .unwrap_err();
    assert!(matches!(
        err,
        ConfigError::InvalidDuration {
            field: "session_lifetime",
            ..
        }
    ));
    // Delegation stays valid — the AS bounds the session instead.
    assert_eq!(default_policy_config().session_lifetime.bound(), None);
}

#[test]
fn rejects_refresh_margin_at_or_above_token_lifetime() {
    let err = builder("/callback", DELEGATED, "https://app.example.com")
        .default_token_lifetime(Duration::from_secs(60))
        .token_refresh_margin(Duration::from_secs(60))
        .build()
        .unwrap_err();
    assert!(matches!(
        err,
        ConfigError::InvalidDuration {
            field: "token_refresh_margin",
            ..
        }
    ));
}

#[test]
fn login_config_activity_policy_defaults_first_party() {
    assert_eq!(
        default_policy_config().activity_policy,
        ActivityPolicy::FirstParty
    );
}

#[test]
fn first_party_counts_same_origin_fetch() {
    let h = req(&[
        ("sec-fetch-site", "same-origin"),
        ("sec-fetch-mode", "cors"),
    ]);
    assert!(ActivityPolicy::FirstParty.counts_as_activity(&h));
}

#[test]
fn first_party_excludes_cross_site_fetch() {
    let h = req(&[("sec-fetch-site", "cross-site"), ("sec-fetch-mode", "cors")]);
    assert!(!ActivityPolicy::FirstParty.counts_as_activity(&h));
}

#[test]
fn first_party_counts_cross_site_navigation() {
    // A genuine inbound link click — cross-site but a top-level navigation.
    let h = req(&[
        ("sec-fetch-site", "cross-site"),
        ("sec-fetch-mode", "navigate"),
    ]);
    assert!(ActivityPolicy::FirstParty.counts_as_activity(&h));
}

#[test]
fn first_party_counts_requests_without_fetch_metadata() {
    // Non-browser / legacy client: treated as first-party, counts.
    assert!(ActivityPolicy::FirstParty.counts_as_activity(&HeaderMap::new()));
}

#[test]
fn navigations_only_excludes_same_origin_fetch() {
    let h = req(&[
        ("sec-fetch-site", "same-origin"),
        ("sec-fetch-mode", "cors"),
    ]);
    assert!(!ActivityPolicy::NavigationsOnly.counts_as_activity(&h));
}

#[test]
fn navigations_only_counts_navigation() {
    let h = req(&[("sec-fetch-mode", "navigate")]);
    assert!(ActivityPolicy::NavigationsOnly.counts_as_activity(&h));
}

#[test]
fn all_requests_counts_cross_site_fetch() {
    let h = req(&[("sec-fetch-site", "cross-site"), ("sec-fetch-mode", "cors")]);
    assert!(ActivityPolicy::AllRequests.counts_as_activity(&h));
}

#[test]
fn first_party_counts_legacy_xhr_without_fetch_metadata() {
    // An old browser / jQuery XHR sends no Sec-Fetch-* — it cannot be
    // classified cross-site, so an active user on such a client must still
    // count as activity and never idle out under the default policy.
    let h = req(&[
        ("x-requested-with", "XMLHttpRequest"),
        ("accept", "application/json"),
    ]);
    assert!(ActivityPolicy::FirstParty.counts_as_activity(&h));
}

#[test]
fn navigations_only_counts_legacy_navigation_via_accept() {
    // Even the strict policy must keep counting genuine page loads from
    // old browsers: with no Sec-Fetch-*, `Accept: text/html` is the
    // navigation signal.
    let h = req(&[("accept", "text/html,application/xhtml+xml")]);
    assert!(ActivityPolicy::NavigationsOnly.counts_as_activity(&h));
}

#[test]
fn login_config_token_refresh_margin_defaults_30s() {
    assert_eq!(
        default_policy_config().token_refresh_margin,
        Duration::from_secs(30)
    );
}

#[test]
fn login_config_default_token_lifetime_defaults_1h() {
    assert_eq!(
        default_policy_config().default_token_lifetime,
        Duration::from_hours(1)
    );
}

#[test]
fn login_config_login_state_ttl_defaults_600s() {
    assert_eq!(
        default_policy_config().login_state_ttl,
        Duration::from_mins(10)
    );
}

#[test]
fn login_config_lifetime_fields_override() {
    let config = builder("/callback", SessionLifetime::Bounded(Duration::from_hours(1)), "https://app.example.com")
        .token_refresh_margin(Duration::from_mins(1))
        .default_token_lifetime(Duration::from_hours(2))
        .login_state_ttl(Duration::from_mins(30))
        .build()
        .unwrap();
    assert_eq!(
        config.session_lifetime,
        SessionLifetime::Bounded(Duration::from_hours(1))
    );
    assert_eq!(config.token_refresh_margin, Duration::from_mins(1));
    assert_eq!(config.default_token_lifetime, Duration::from_hours(2));
    assert_eq!(config.login_state_ttl, Duration::from_mins(30));
}

#[test]
fn login_config_callback_path_must_start_with_slash() {
    let err = builder("callback", DELEGATED, "https://app.example.com")
        .build()
        .unwrap_err();
    assert!(matches!(err, ConfigError::InvalidCallbackPath { .. }));
}

#[test]
fn login_config_callback_path_must_not_contain_query_or_fragment() {
    for path in ["/callback?foo=bar", "/callback#section", "/callback;Secure"] {
        let err = builder(path, DELEGATED, "https://app.example.com")
            .build()
            .unwrap_err();
        assert!(matches!(err, ConfigError::InvalidCallbackPath { .. }));
    }
}

#[test]
fn login_config_paths_reject_control_characters() {
    for path in [
        "/callback\r\nSet-Cookie: x=y",
        "/callback\0",
        "/callback\n",
        "/callback\t",
    ] {
        let err = builder(path, DELEGATED, "https://app.example.com")
            .build()
            .unwrap_err();
        assert!(
            matches!(err, ConfigError::InvalidCallbackPath { .. }),
            "expected reject for {path:?}, got {err:?}"
        );
    }
}

#[test]
fn login_config_strip_prefix_must_start_with_slash() {
    let err = builder("/callback", DELEGATED, "https://app.example.com")
        .strip_prefix("internal")
        .build()
        .unwrap_err();
    assert!(matches!(err, ConfigError::InvalidStripPrefix { .. }));
}

#[test]
fn login_config_strip_prefix_must_not_contain_query_fragment_or_semicolon() {
    for prefix in ["/internal?foo", "/internal#bar", "/internal;baz"] {
        let err = builder("/callback", DELEGATED, "https://app.example.com")
            .strip_prefix(prefix)
            .build()
            .unwrap_err();
        assert!(matches!(err, ConfigError::InvalidStripPrefix { .. }));
    }
}

#[test]
fn login_config_logout_defaults_none() {
    assert!(default_policy_config().logout.is_none());
}

#[test]
fn login_config_logout_accepted() {
    let config = builder("/callback", DELEGATED, "https://app.example.com")
        .logout(LogoutConfig::new("/logout", None, None).unwrap())
        .build()
        .unwrap();
    assert_eq!(config.logout.unwrap().path, "/logout");
}

#[test]
fn logout_config_path_must_start_with_slash() {
    let err = LogoutConfig::new("logout", None, None).unwrap_err();
    assert!(matches!(err, ConfigError::InvalidLogoutPath { .. }));
}

#[test]
fn logout_config_path_must_not_contain_query_fragment_or_semicolon() {
    for path in ["/logout?foo=bar", "/logout#section", "/logout;Secure"] {
        let err = LogoutConfig::new(path, None, None).unwrap_err();
        assert!(matches!(err, ConfigError::InvalidLogoutPath { .. }));
    }
}

#[test]
fn logout_config_end_session_endpoint_absolute_accepted() {
    let endpoint = "https://auth.example.com/logout".parse().unwrap();
    let config = LogoutConfig::new("/logout", Some(endpoint), None).unwrap();
    assert_eq!(
        config.end_session_endpoint.unwrap().as_str(),
        "https://auth.example.com/logout"
    );
}

#[test]
fn login_config_post_logout_redirect_uri_must_be_absolute() {
    let err = builder("/callback", DELEGATED, "https://app.example.com")
        .logout(LogoutConfig::new("/logout", None, Some("/signed-out".to_owned())).unwrap())
        .build()
        .unwrap_err();
    assert!(matches!(
        err,
        ConfigError::InvalidPostLogoutRedirectUri { .. }
    ));
}

#[test]
fn login_config_post_logout_redirect_uri_absolute_accepted() {
    let config = builder("/callback", DELEGATED, "https://app.example.com")
        .logout(
            LogoutConfig::new(
                "/logout",
                None,
                Some("https://app.example.com/signed-out".to_owned()),
            )
            .unwrap(),
        )
        .build()
        .unwrap();
    let logout = config.logout.unwrap();
    assert_eq!(
        logout.post_logout_redirect_uri.unwrap(),
        "https://app.example.com/signed-out"
    );
}

#[test]
fn login_config_cookie_prefix_rejects_unsafe_characters() {
    for prefix in ["bad prefix", "bad;prefix", "bad=prefix", "préfixe", ""] {
        let err = builder("/callback", DELEGATED, "https://app.example.com")
            .login_cookie_prefix(prefix)
            .build()
            .unwrap_err();
        assert!(
            matches!(err, ConfigError::InvalidLoginCookiePrefix { .. }),
            "expected reject for {prefix:?}, got {err:?}"
        );
    }
}

#[test]
fn login_config_cookie_prefix_accepts_safe_characters() {
    let config = builder("/callback", DELEGATED, "https://app.example.com")
        .login_cookie_prefix("my-app_2")
        .build()
        .unwrap();
    assert_eq!(config.login_cookie_prefix.as_str(), "my-app_2");
}

// -- browser_callback_path tests --

#[test]
fn browser_callback_path_simple() {
    let config = builder("/callback", DELEGATED, "https://app.example.com")
        .build()
        .unwrap();
    assert_eq!(config.browser_callback_path, "/callback");
}

#[test]
fn browser_callback_path_with_base_path() {
    let config = builder("/callback", DELEGATED, "https://app.example.com/base")
        .build()
        .unwrap();
    assert_eq!(config.browser_callback_path, "/base/callback");
}

#[test]
fn browser_callback_path_with_strip_prefix() {
    let config = builder("/internal/callback", DELEGATED, "https://app.example.com")
        .strip_prefix("/internal")
        .build()
        .unwrap();
    assert_eq!(config.browser_callback_path, "/callback");
}

#[test]
fn browser_callback_path_with_base_path_and_strip_prefix() {
    let config = builder("/internal/callback", DELEGATED, "https://app.example.com/base")
        .strip_prefix("/internal")
        .build()
        .unwrap();
    assert_eq!(config.browser_callback_path, "/base/callback");
}

// -- RoutePath tests --

#[test]
fn route_path_new_accepts_and_rejects() {
    assert_eq!(RoutePath::new("/callback").unwrap(), "/callback");
    assert_eq!(
        RoutePath::new("no-leading-slash").unwrap_err().reason,
        "must start with '/'"
    );
    assert!(RoutePath::new("/a;b").is_err());
    assert!(RoutePath::new("/a?b").is_err());
    assert!(RoutePath::new("/a\r\nb").is_err());
}

#[test]
fn route_path_try_from() {
    assert!(RoutePath::try_from("/ok").is_ok());
    assert!(RoutePath::try_from("/bad;x".to_owned()).is_err());
    // `?`/`try_into()` ergonomics for callers.
    let p: RoutePath = "/scope".try_into().unwrap();
    assert_eq!(p, "/scope");
}

#[test]
fn base_url_path_with_semicolon_rejected_as_unsafe_cookie_scope() {
    // The derived browser_callback_path becomes a cookie `Path`; a `;` in
    // base_url's path would inject a stray cookie attribute, so the build
    // must reject it rather than emit an unsafe Set-Cookie.
    let err = builder("/callback", DELEGATED, "https://app.example.com/a;b")
        .build()
        .unwrap_err();
    assert!(matches!(err, ConfigError::InvalidBaseUrl { .. }));
}

// -- ConfigError Display tests --

#[test]
fn config_error_display_callback_path() {
    let err = ConfigError::InvalidCallbackPath {
        path: "foo".into(),
        reason: "must start with '/'",
    };
    let s = err.message();
    assert!(s.contains("callback_path"));
    assert!(s.contains("foo"));
    assert!(s.contains("must start with '/'"));
}

#[test]
fn config_error_display_base_url() {
    let err = ConfigError::InvalidBaseUrl {
        url: "x".into(),
        reason: "reason",
    };
    assert!(err.message().contains("base_url"));
}

#[test]
fn config_error_display_strip_prefix() {
    let err = ConfigError::InvalidStripPrefix {
        prefix: "p".into(),
        reason: "reason",
    };
    assert!(err.message().contains("strip_prefix"));
}

#[test]
fn config_error_display_logout_path() {
    let err = ConfigError::InvalidLogoutPath {
        path: "p".into(),
        reason: "reason",
    };
    assert!(err.message().contains("logout path"));
}

#[test]
fn config_error_display_post_logout_redirect_uri() {
    let err = ConfigError::InvalidPostLogoutRedirectUri {
        url: "u".into(),
        reason: "reason",
    };
    assert!(err.message().contains("post_logout_redirect_uri"));
}

#[test]
fn config_error_display_login_cookie_prefix() {
    let err = ConfigError::InvalidLoginCookiePrefix {
        prefix: "p".into(),
        reason: "reason",
    };
    assert!(err.message().contains("login_cookie_prefix"));
}

#[test]
fn strip_prefix_not_matching_callback_path_is_rejected() {
    // The engine sees prefixed paths, so a callback_path outside the
    // prefix is contradictory.
    let err = builder("/callback", DELEGATED, "https://app.example.com")
        .strip_prefix("/other")
        .build()
        .unwrap_err();
    assert!(matches!(err, ConfigError::InvalidCallbackPath { .. }));
}

#[test]
fn strip_prefix_not_matching_logout_path_is_rejected() {
    let err = builder("/internal/callback", DELEGATED, "https://app.example.com")
        .strip_prefix("/internal")
        .logout(LogoutConfig::new("/logout", None, None).unwrap())
        .build()
        .unwrap_err();
    assert!(matches!(err, ConfigError::InvalidLogoutPath { .. }));
}

#[test]
fn strip_prefix_matching_both_paths_is_accepted() {
    let config = builder("/internal/callback", DELEGATED, "https://app.example.com")
        .strip_prefix("/internal")
        .logout(LogoutConfig::new("/internal/logout", None, None).unwrap())
        .build()
        .unwrap();
    assert_eq!(config.browser_callback_path, "/callback");
}

// -- Messages --

#[test]
fn config_errors_name_the_setting_the_value_and_the_reason() {
    let err = builder("callback", DELEGATED, "https://app.example.com").build().unwrap_err();
    assert_eq!(err.message(), "invalid callback_path \"callback\": must start with '/'");
    let err = builder("/callback", DELEGATED, "https://app.example.com/a;b").build().unwrap_err();
    assert_eq!(
        err.message(),
        "invalid base_url \"https://app.example.com/a;b\": must not contain '?', '#', or ';'"
    );
    let err = builder("/callback", DELEGATED, "https://app.example.com")
        .default_token_lifetime(Duration::zero())
        .build()
        .unwrap_err();
    assert_eq!(err.message(), "invalid default_token_lifetime: must be greater than zero");
}

#[test]
fn messages_quote_the_offending_value() {
    let err = RoutePath::new("a\"b\n").unwrap_err();
    assert_eq!(err.message(), "invalid route path \"a\\\"b\\n\": must start with '/'");
}

#[test]
fn strip_prefix_fault_comes_before_a_mismatched_callback() {
    let err = builder("/callback", DELEGATED, "https://app.example.com")
        .strip_prefix("other")
        .build()
        .unwrap_err();
    assert!(matches!(err, ConfigError::InvalidStripPrefix { .. }));
}

#[test]
fn endpoint_urls_are_absolute_http_without_credentials_or_fragment() {
    for text in [
        "/relative",
        "ftp://app.example.com",
        "https://user@app.example.com",
        "https://app.example.com/#part",
        "app.example.com",
    ] {
        assert!(text.parse::<EndpointUrl>().is_err(), "expected reject: {text}");
    }
    let url: EndpointUrl = "https://app.example.com:8443/base?x=1".parse().unwrap();
    assert_eq!(url.scheme(), "https");
    assert_eq!(url.authority(), "app.example.com:8443");
    assert_eq!(url.path(), "/base");
    assert!(url.has_query());
    assert!(url.is_https());
    let bare: EndpointUrl = "http://app.example.com".parse().unwrap();
    assert_eq!(bare.path(), "/");
    assert!(!bare.has_query());
    assert!(!bare.is_https());
}

#[test]
fn stricter_policies_count_fewer_requests() {
    let cases = [
        req(&[("sec-fetch-mode", "navigate"), ("sec-fetch-site", "cross-site")]),
        req(&[("sec-fetch-mode", "cors"), ("sec-fetch-site", "cross-site")]),
        req(&[("sec-fetch-mode", "cors"), ("sec-fetch-site", "same-origin")]),
        req(&[]),
    ];
    for h in &cases {
        let navigations = ActivityPolicy::NavigationsOnly.counts_as_activity(h);
        let first_party = ActivityPolicy::FirstParty.counts_as_activity(h);
        assert!(!navigations || first_party);
        assert!(ActivityPolicy::AllRequests.counts_as_activity(h));
    }
}
