//! Login flow configuration.

use http::HeaderMap;
use vstd::prelude::*;

use crate::cookie::{name_fault, CookieName, DEFAULT_LOGIN_COOKIE_PREFIX};
use crate::engine::request::{
    is_cross_site, is_cross_site_request, is_navigation, is_navigation_request,
};
use crate::text::{
    after_prefix, chars_of, has_prefix, opt_str, opt_text, quoted, quoted_text, same_text,
    strip_prefix, trim_end_char, trim_end_of,
};
use crate::time::Duration;
use crate::url::{parse_uri_origin, uri_origin, EndpointUrl, EndpointView};

verus! {

/// An ASCII control character.
pub open spec fn is_control(c: char) -> bool {
    c < ' ' || c == '\x7f'
}

/// Why `path` is no route path; `None` when it is one.
pub open spec fn route_fault(path: Seq<char>) -> Option<Seq<char>> {
    if path.len() == 0 || path[0] != '/' {
        Some("must start with '/'"@)
    } else if path.contains('?') || path.contains('#') || path.contains(';') {
        Some("must not contain '?', '#', or ';'"@)
    } else if exists|i: int| 0 <= i < path.len() && is_control(#[trigger] path[i]) {
        Some("must not contain ASCII control characters"@)
    } else {
        None
    }
}

/// A validated request path or path prefix, cookie- and header-safe by
/// construction: starts with `/` and contains no `?`, `#`, `;`, or ASCII
/// control characters.
#[derive(Debug)]
pub struct RoutePath(String);

impl View for RoutePath {
    type V = Seq<char>;

    closed spec fn view(&self) -> Seq<char> {
        self.0@
    }
}

/// Error returned by [`RoutePath::new`] when a path fails validation.
#[derive(Debug, Clone, PartialEq, Eq)]
pub struct InvalidRoutePath {
    /// The offending path.
    pub path: String,
    /// Why the path was rejected.
    pub reason: &'static str,
}

impl InvalidRoutePath {
    /// The message of this error.
    pub fn message(&self) -> (s: String)
        ensures
            s@ == "invalid route path "@ + quoted_text(self.path@) + ": "@
                + self.reason@,
    {
        let mut s = "invalid route path ".to_owned();
        s.append(quoted(self.path.as_str()).as_str());
        s.append(": ");
        s.append(self.reason);
        s
    }
}

impl RoutePath {
    #[verifier::type_invariant]
    spec fn well_formed(self) -> bool {
        route_fault(self.0@) is None
    }

    /// Validates `path` (must start with `/`; no `?`, `#`, `;`, or control
    /// characters) and wraps it.
    ///
    /// # Errors
    ///
    /// Returns [`InvalidRoutePath`] with the offending value and reason.
    pub fn new(path: &str) -> (r: Result<Self, InvalidRoutePath>)
        ensures
            match r {
                Ok(p) => p@ == path@ && route_fault(path@) is None,
                Err(e) => e.path@ == path@ && route_fault(path@) == Some(e.reason@),
            },
    {
        let v = chars_of(path);
        if v.len() == 0 || v[0] != '/' {
            return Err(
                InvalidRoutePath { path: path.to_owned(), reason: "must start with '/'" },
            );
        }
        let mut special = false;
        let mut control = false;
        let mut i: usize = 0;
        while i < v.len()
            invariant
                i <= v@.len(),
                special == (exists|k: int|
                    0 <= k < i && (#[trigger] v@[k] == '?' || v@[k] == '#' || v@[k] == ';')),
                control == (exists|k: int| 0 <= k < i && is_control(#[trigger] v@[k])),
            decreases v@.len() - i,
        {
            let c = v[i];
            if c == '?' || c == '#' || c == ';' {
                special = true;
            }
            if c < ' ' || c == '\x7f' {
                control = true;
            }
            i = i + 1;
        }
        proof {
            if special {
                let k = choose|k: int|
                    0 <= k < v@.len() && (#[trigger] v@[k] == '?' || v@[k] == '#' || v@[k] == ';');
                assert(path@.contains(v@[k]));
            } else {
                assert(!path@.contains('?') && !path@.contains('#') && !path@.contains(';'));
            }
        }
        if special {
            return Err(
                InvalidRoutePath {
                    path: path.to_owned(),
                    reason: "must not contain '?', '#', or ';'",
                },
            );
        }
        if control {
            return Err(
                InvalidRoutePath {
                    path: path.to_owned(),
                    reason: "must not contain ASCII control characters",
                },
            );
        }
        Ok(RoutePath(path.to_owned()))
    }

    /// The validated path as a string slice.
    #[must_use]
    pub fn as_str(&self) -> (s: &str)
        ensures
            s@ == self@,
            route_fault(s@) is None,
    {
        proof {
            use_type_invariant(self);
        }
        self.0.as_str()
    }
}

impl Clone for RoutePath {
    fn clone(&self) -> (r: Self)
        ensures
            r@ == self@,
    {
        proof {
            use_type_invariant(self);
        }
        RoutePath(self.0.clone())
    }
}

impl PartialEq for RoutePath {
    fn eq(&self, other: &RoutePath) -> (r: bool) {
        self.0 == other.0
    }
}

impl vstd::std_specs::cmp::PartialEqSpecImpl for RoutePath {
    open spec fn obeys_eq_spec() -> bool {
        true
    }

    open spec fn eq_spec(&self, other: &RoutePath) -> bool {
        self@ == other@
    }
}

impl PartialEq<&str> for RoutePath {
    fn eq(&self, other: &&str) -> (r: bool) {
        same_text(self.0.as_str(), other)
    }
}

impl vstd::std_specs::cmp::PartialEqSpecImpl<&str> for RoutePath {
    open spec fn obeys_eq_spec() -> bool {
        true
    }

    open spec fn eq_spec(&self, other: &&str) -> bool {
        self@ == other@
    }
}

impl vstd::std_specs::convert::TryFromSpecImpl<&str> for RoutePath {
    open spec fn obeys_try_from_spec() -> bool {
        false
    }

    open spec fn try_from_spec(path: &str) -> Result<RoutePath, InvalidRoutePath> {
        arbitrary()
    }
}

impl TryFrom<&str> for RoutePath {
    type Error = InvalidRoutePath;

    fn try_from(path: &str) -> (r: Result<Self, InvalidRoutePath>)
        ensures
            match r {
                Ok(p) => p@ == path@ && route_fault(path@) is None,
                Err(e) => e.path@ == path@ && route_fault(path@) == Some(e.reason@),
            },
    {
        RoutePath::new(path)
    }
}

impl vstd::std_specs::convert::TryFromSpecImpl<String> for RoutePath {
    open spec fn obeys_try_from_spec() -> bool {
        false
    }

    open spec fn try_from_spec(path: String) -> Result<RoutePath, InvalidRoutePath> {
        arbitrary()
    }
}

impl TryFrom<String> for RoutePath {
    type Error = InvalidRoutePath;

    fn try_from(path: String) -> (r: Result<Self, InvalidRoutePath>)
        ensures
            match r {
                Ok(p) => p@ == path@ && route_fault(path@) is None,
                Err(e) => e.path@ == path@ && route_fault(path@) == Some(e.reason@),
            },
    {
        RoutePath::new(path.as_str())
    }
}

impl std::str::FromStr for RoutePath {
    type Err = InvalidRoutePath;

    fn from_str(path: &str) -> (r: Result<Self, InvalidRoutePath>)
        ensures
            match r {
                Ok(p) => p@ == path@ && route_fault(path@) is None,
                Err(e) => e.path@ == path@ && route_fault(path@) == Some(e.reason@),
            },
    {
        RoutePath::new(path)
    }
}

// -- Policies --

/// Which requests count as user activity for liveness tracking; only activity
/// advances `last_active` (idle expiry runs regardless). Classified from
/// fetch-metadata headers. Defaults to [`FirstParty`](Self::FirstParty).
#[derive(Debug, Clone, Copy, PartialEq, Eq, Structural)]
#[non_exhaustive]
pub enum ActivityPolicy {
    /// Only top-level browser navigations count.
    NavigationsOnly,
    /// Everything except cross-site requests that are not top-level
    /// navigations. Requests without fetch-metadata count as first-party.
    FirstParty,
    /// Every authenticated request counts as activity.
    AllRequests,
}

impl Default for ActivityPolicy {
    fn default() -> (p: Self)
        ensures
            p == ActivityPolicy::FirstParty,
    {
        ActivityPolicy::FirstParty
    }
}

impl ActivityPolicy {
    /// Whether a request with these headers advances `last_active`.
    pub open spec fn counts(self, headers: HeaderMap) -> bool {
        match self {
            ActivityPolicy::NavigationsOnly => is_navigation(headers),
            ActivityPolicy::FirstParty => !is_cross_site(headers) || is_navigation(headers),
            ActivityPolicy::AllRequests => true,
        }
    }

    /// Returns whether a request with these headers advances `last_active`.
    #[must_use]
    pub fn counts_as_activity(self, headers: &HeaderMap) -> (r: bool)
        ensures
            r == self.counts(*headers),
    {
        match self {
            ActivityPolicy::NavigationsOnly => is_navigation_request(headers),
            ActivityPolicy::FirstParty => !is_cross_site_request(headers)
                || is_navigation_request(headers),
            ActivityPolicy::AllRequests => true,
        }
    }
}

/// Each policy counts at least what the stricter one counts.
pub proof fn law_activity_policies_are_nested(headers: HeaderMap)
    ensures
        ActivityPolicy::NavigationsOnly.counts(headers) ==> ActivityPolicy::FirstParty.counts(
            headers,
        ),
        ActivityPolicy::FirstParty.counts(headers) ==> ActivityPolicy::AllRequests.counts(headers),
{
}

/// Which party bounds the session's absolute lifetime. There is no default, so
/// every deployment states its choice.
#[derive(Debug, Clone, Copy, PartialEq, Eq, Structural)]
pub enum SessionLifetime {
    /// The **authorization server** bounds the session: it lives exactly as
    /// long as the server keeps honoring the refresh token, and this crate
    /// imposes no cap of its own.
    DelegatedToAuthorizationServer,
    /// This crate bounds the session: it is torn down this long after login,
    /// regardless of activity or server policy. Must be non-zero. The deadline
    /// is frozen into each session at login, making cap changes
    /// one-directional for existing sessions: lowering applies immediately,
    /// raising reaches new logins only.
    Bounded(Duration),
}

impl SessionLifetime {
    /// The crate-enforced cap, if there is one.
    pub open spec fn cap(self) -> Option<Duration> {
        match self {
            SessionLifetime::DelegatedToAuthorizationServer => None,
            SessionLifetime::Bounded(d) => Some(d),
        }
    }

    /// The crate-enforced cap: `Some` for [`Bounded`](Self::Bounded), `None`
    /// for
    /// [`DelegatedToAuthorizationServer`](Self::DelegatedToAuthorizationServer).
    #[must_use]
    pub fn bound(self) -> (d: Option<Duration>)
        ensures
            d == self.cap(),
    {
        match self {
            SessionLifetime::DelegatedToAuthorizationServer => None,
            SessionLifetime::Bounded(d) => Some(d),
        }
    }
}

// -- Errors --

/// Errors that can occur when building a [`LoginConfig`].
#[derive(Debug)]
#[non_exhaustive]
pub enum ConfigError {
    /// The `callback_path` is invalid.
    InvalidCallbackPath {
        /// The offending path.
        path: String,
        /// Why the path was rejected.
        reason: &'static str,
    },
    /// The `base_url` is invalid.
    InvalidBaseUrl {
        /// The offending URL.
        url: String,
        /// Why the URL was rejected.
        reason: &'static str,
    },
    /// The `strip_prefix` is invalid.
    InvalidStripPrefix {
        /// The offending prefix.
        prefix: String,
        /// Why the prefix was rejected.
        reason: &'static str,
    },
    /// The logout `path` is invalid.
    InvalidLogoutPath {
        /// The offending path.
        path: String,
        /// Why the path was rejected.
        reason: &'static str,
    },
    /// The `post_logout_redirect_uri` is invalid.
    InvalidPostLogoutRedirectUri {
        /// The offending URL.
        url: String,
        /// Why the URL was rejected.
        reason: &'static str,
    },
    /// The `login_cookie_prefix` is invalid.
    InvalidLoginCookiePrefix {
        /// The offending prefix.
        prefix: String,
        /// Why the prefix was rejected.
        reason: &'static str,
    },
    /// A duration setting holds an invalid value (e.g. zero).
    InvalidDuration {
        /// The name of the offending field.
        field: &'static str,
        /// Why the value was rejected.
        reason: &'static str,
    },
}

/// What a [`ConfigError`] reports: the offending value and why it was
/// rejected.
pub enum ConfigFault {
    /// The `callback_path` is invalid.
    CallbackPath(Seq<char>, Seq<char>),
    /// The `base_url` is invalid.
    BaseUrl(Seq<char>, Seq<char>),
    /// The `strip_prefix` is invalid.
    StripPrefix(Seq<char>, Seq<char>),
    /// The logout `path` is invalid.
    LogoutPath(Seq<char>, Seq<char>),
    /// The `post_logout_redirect_uri` is invalid.
    PostLogoutRedirectUri(Seq<char>, Seq<char>),
    /// The `login_cookie_prefix` is invalid.
    LoginCookiePrefix(Seq<char>, Seq<char>),
    /// The named duration setting is invalid.
    Duration(Seq<char>, Seq<char>),
}

impl View for ConfigError {
    type V = ConfigFault;

    open spec fn view(&self) -> ConfigFault {
        match self {
            ConfigError::InvalidCallbackPath { path, reason } => ConfigFault::CallbackPath(
                path@,
                reason@,
            ),
            ConfigError::InvalidBaseUrl { url, reason } => ConfigFault::BaseUrl(url@, reason@),
            ConfigError::InvalidStripPrefix { prefix, reason } => ConfigFault::StripPrefix(
                prefix@,
                reason@,
            ),
            ConfigError::InvalidLogoutPath { path, reason } => ConfigFault::LogoutPath(
                path@,
                reason@,
            ),
            ConfigError::InvalidPostLogoutRedirectUri { url, reason } =>
                ConfigFault::PostLogoutRedirectUri(url@, reason@),
            ConfigError::InvalidLoginCookiePrefix { prefix, reason } =>
                ConfigFault::LoginCookiePrefix(prefix@, reason@),
            ConfigError::InvalidDuration { field, reason } => ConfigFault::Duration(
                field@,
                reason@,
            ),
        }
    }
}

/// `{subject} {value:?}: {reason}`.
pub open spec fn fault_text(subject: Seq<char>, value: Seq<char>, reason: Seq<char>) -> Seq<char> {
    subject + quoted_text(value) + ": "@ + reason
}

fn fault_message(subject: &str, value: &str, reason: &str) -> (s: String)
    ensures
        s@ == fault_text(subject@, value@, reason@),
{
    let mut s = subject.to_owned();
    s.append(quoted(value).as_str());
    s.append(": ");
    s.append(reason);
    s
}

impl ConfigError {
    /// The message of this error.
    pub fn message(&self) -> (s: String)
        ensures
            s@ == match self@ {
                ConfigFault::CallbackPath(v, why) => fault_text("invalid callback_path "@, v, why),
                ConfigFault::BaseUrl(v, why) => fault_text("invalid base_url "@, v, why),
                ConfigFault::StripPrefix(v, why) => fault_text("invalid strip_prefix "@, v, why),
                ConfigFault::LogoutPath(v, why) => fault_text("invalid logout path "@, v, why),
                ConfigFault::PostLogoutRedirectUri(v, why) => fault_text(
                    "invalid post_logout_redirect_uri "@,
                    v,
                    why,
                ),
                ConfigFault::LoginCookiePrefix(v, why) => fault_text(
                    "invalid login_cookie_prefix "@,
                    v,
                    why,
                ),
                ConfigFault::Duration(field, why) => "invalid "@ + field + ": "@ + why,
            },
    {
        match self {
            ConfigError::InvalidCallbackPath { path, reason } => fault_message(
                "invalid callback_path ",
                path.as_str(),
                reason,
            ),
            ConfigError::InvalidBaseUrl { url, reason } => fault_message(
                "invalid base_url ",
                url.as_str(),
                reason,
            ),
            ConfigError::InvalidStripPrefix { prefix, reason } => fault_message(
                "invalid strip_prefix ",
                prefix.as_str(),
                reason,
            ),
            ConfigError::InvalidLogoutPath { path, reason } => fault_message(
                "invalid logout path ",
                path.as_str(),
                reason,
            ),
            ConfigError::InvalidPostLogoutRedirectUri { url, reason } => fault_message(
                "invalid post_logout_redirect_uri ",
                url.as_str(),
                reason,
            ),
            ConfigError::InvalidLoginCookiePrefix { prefix, reason } => fault_message(
                "invalid login_cookie_prefix ",
                prefix.as_str(),
                reason,
            ),
            ConfigError::InvalidDuration { field, reason } => {
                let mut s = "invalid ".to_owned();
                s.append(field);
                s.append(": ");
                s.append(reason);
                s
            },
        }
    }
}

// -- Derived settings --

/// A base path joined with a segment, with exactly one `/` between them.
pub open spec fn joined_path(base_path: Seq<char>, segment: Seq<char>) -> Seq<char> {
    trim_end_of(base_path, '/') + (if segment.len() > 0 && segment[0] == '/' {
        segment
    } else {
        "/"@ + segment
    })
}

/// Joins the path component of `base_url` with `segment`, inserting exactly
/// one `/` between them.
pub fn join_base_path(base_url: &EndpointUrl, segment: &str) -> (s: String)
    ensures
        s@ == joined_path(base_url@.path, segment@),
{
    let mut s = trim_end_char(base_url.path(), '/');
    if !has_prefix(segment, "/") {
        s.append("/");
    }
    s.append(segment);
    proof {
        reveal_strlit("/");
        if "/"@.is_prefix_of(segment@) {
            assert(segment@.subrange(0, 1)[0] == '/');
        } else if segment@.len() > 0 && segment@[0] == '/' {
            assert("/"@ =~= segment@.subrange(0, 1));
        }
        assert(s@ =~= joined_path(base_url@.path, segment@));
    }
    s
}

/// Why the durations of a configuration contradict each other: the offending
/// setting and the reason.
pub open spec fn duration_fault(
    session_lifetime: SessionLifetime,
    token_refresh_margin: Duration,
    default_token_lifetime: Duration,
    login_state_ttl: Duration,
) -> Option<ConfigFault> {
    if default_token_lifetime.nanos == 0 {
        Some(ConfigFault::Duration("default_token_lifetime"@, "must be greater than zero"@))
    } else if login_state_ttl.nanos == 0 {
        Some(ConfigFault::Duration("login_state_ttl"@, "must be greater than zero"@))
    } else if session_lifetime.cap() == Some(Duration { nanos: 0 }) {
        Some(
            ConfigFault::Duration(
                "session_lifetime"@,
                "Bounded lifetime must be greater than zero (use DelegatedToAuthorizationServer to delegate the cap)"@,
            ),
        )
    } else if token_refresh_margin.nanos >= default_token_lifetime.nanos {
        Some(
            ConfigFault::Duration(
                "token_refresh_margin"@,
                "must be less than default_token_lifetime"@,
            ),
        )
    } else {
        None
    }
}

/// Validates the lifetime/interval settings against each other.
pub fn validate_durations(
    session_lifetime: SessionLifetime,
    token_refresh_margin: Duration,
    default_token_lifetime: Duration,
    login_state_ttl: Duration,
) -> (r: Result<(), ConfigError>)
    ensures
        match r {
            Ok(_) => duration_fault(
                session_lifetime,
                token_refresh_margin,
                default_token_lifetime,
                login_state_ttl,
            ) is None,
            Err(e) => duration_fault(
                session_lifetime,
                token_refresh_margin,
                default_token_lifetime,
                login_state_ttl,
            ) == Some(e@),
        },
{
    if default_token_lifetime.is_zero() {
        return Err(
            ConfigError::InvalidDuration {
                field: "default_token_lifetime",
                reason: "must be greater than zero",
            },
        );
    }
    if login_state_ttl.is_zero() {
        return Err(
            ConfigError::InvalidDuration {
                field: "login_state_ttl",
                reason: "must be greater than zero",
            },
        );
    }
    if let SessionLifetime::Bounded(cap) = session_lifetime {
        if cap.is_zero() {
            return Err(
                ConfigError::InvalidDuration {
                    field: "session_lifetime",
                    reason:
                        "Bounded lifetime must be greater than zero (use DelegatedToAuthorizationServer to delegate the cap)",
                },
            );
        }
    }
    if token_refresh_margin.nanos >= default_token_lifetime.nanos {
        return Err(
            ConfigError::InvalidDuration {
                field: "token_refresh_margin",
                reason: "must be less than default_token_lifetime",
            },
        );
    }
    Ok(())
}

/// The browser-facing path of the callback: the base URL's path joined to the
/// callback path, without the prefix a front proxy adds.
pub open spec fn browser_path(
    callback_path: Seq<char>,
    strip_prefix: Option<Seq<char>>,
    base_path: Seq<char>,
) -> Seq<char> {
    joined_path(base_path, stripped(callback_path, strip_prefix))
}

/// `path` without the prefix a front proxy adds, where it has one.
pub open spec fn stripped(path: Seq<char>, strip_prefix: Option<Seq<char>>) -> Seq<char> {
    match strip_prefix {
        Some(prefix) => match after_prefix(path, prefix) {
            Some(rest) => rest,
            None => path,
        },
        None => path,
    }
}

/// `path` without the prefix a front proxy adds, where it has one.
pub fn strip_route_prefix(path: &str, prefix: Option<&RoutePath>) -> (s: String)
    ensures
        s@ == stripped(path@, opt_route(prefix)),
{
    match prefix {
        Some(p) => match strip_prefix(path, p.as_str()) {
            Some(rest) => rest,
            None => path.to_owned(),
        },
        None => path.to_owned(),
    }
}

/// The path an optional route path holds.
pub open spec fn opt_route(path: Option<&RoutePath>) -> Option<Seq<char>> {
    match path {
        Some(p) => Some(p@),
        None => None,
    }
}

/// Computes the browser-facing callback path: `base_url` path joined to
/// `callback_path` with `strip_prefix` removed.
pub fn compute_browser_callback_path(
    callback_path: &RoutePath,
    strip_prefix: Option<&RoutePath>,
    base_url: &EndpointUrl,
) -> (s: String)
    ensures
        s@ == browser_path(callback_path@, opt_route(strip_prefix), base_url@.path),
{
    let inner = strip_route_prefix(callback_path.as_str(), strip_prefix);
    join_base_path(base_url, inner.as_str())
}

// -- Logout --

/// Logout endpoint configuration. Grouped under [`LoginConfig::logout`].
#[derive(Debug)]
#[non_exhaustive]
pub struct LogoutConfig {
    /// Path at which the logout endpoint is mounted (e.g. `"/logout"`).
    pub path: RoutePath,
    /// Authorization server's end-session endpoint for RP-initiated logout
    /// (OIDC RP-Initiated Logout 1.0).
    pub end_session_endpoint: Option<EndpointUrl>,
    /// Absolute URI to redirect to after the local session is cleared; defaults
    /// to `base_url`. Held as the exact string supplied, as the server matches
    /// it byte for byte.
    pub post_logout_redirect_uri: Option<String>,
}

impl LogoutConfig {
    /// Creates a logout configuration, validating the `path` shape.
    ///
    /// # Errors
    ///
    /// Returns [`ConfigError::InvalidLogoutPath`] if `path` is malformed.
    pub fn new(
        path: &str,
        end_session_endpoint: Option<EndpointUrl>,
        post_logout_redirect_uri: Option<String>,
    ) -> (r: Result<Self, ConfigError>)
        ensures
            match r {
                Ok(c) => {
                    &&& route_fault(path@) is None
                    &&& c.path@ == path@
                    &&& c.end_session_endpoint == end_session_endpoint
                    &&& c.post_logout_redirect_uri == post_logout_redirect_uri
                },
                Err(e) => route_fault(path@) matches Some(why) && e@ == ConfigFault::LogoutPath(
                    path@,
                    why,
                ),
            },
    {
        match RoutePath::new(path) {
            Ok(path) => Ok(LogoutConfig { path, end_session_endpoint, post_logout_redirect_uri }),
            Err(e) => Err(ConfigError::InvalidLogoutPath { path: e.path, reason: e.reason }),
        }
    }
}

/// An absolute URI: one with a scheme and an authority.
pub open spec fn is_absolute_uri(text: Seq<char>) -> bool {
    match uri_origin(text) {
        Some((scheme, authority)) => scheme is Some && authority is Some,
        None => false,
    }
}

fn check_absolute_uri(text: &str) -> (r: bool)
    ensures
        r == is_absolute_uri(text@),
{
    match parse_uri_origin(text) {
        Some((scheme, authority)) => scheme.is_some() && authority.is_some(),
        None => false,
    }
}

/// The texts of an optional logout configuration: its path and its
/// post-logout redirect URI.
pub open spec fn logout_texts(logout: Option<LogoutConfig>) -> Option<
    (Seq<char>, Option<Seq<char>>),
> {
    match logout {
        Some(l) => Some((l.path@, opt_text(l.post_logout_redirect_uri))),
        None => None,
    }
}

/// Why the paths of a configuration are rejected, checked in this order: the
/// callback path, the prefix to strip, the post-logout redirect URI, and
/// whether callback and logout path lie under the prefix.
pub open spec fn path_fault(
    callback_path: Seq<char>,
    strip_prefix: Option<Seq<char>>,
    logout: Option<(Seq<char>, Option<Seq<char>>)>,
) -> Option<ConfigFault> {
    if let Some(why) = route_fault(callback_path) {
        Some(ConfigFault::CallbackPath(callback_path, why))
    } else if strip_prefix is Some && route_fault(strip_prefix->0) is Some {
        Some(ConfigFault::StripPrefix(strip_prefix->0, route_fault(strip_prefix->0)->0))
    } else if logout is Some && (logout->0).1 is Some && !is_absolute_uri((logout->0).1->0) {
        Some(
            ConfigFault::PostLogoutRedirectUri(
                (logout->0).1->0,
                "must be an absolute URL with scheme and authority"@,
            ),
        )
    } else if strip_prefix is Some && !(strip_prefix->0).is_prefix_of(callback_path) {
        Some(
            ConfigFault::CallbackPath(
                callback_path,
                "must start with strip_prefix when strip_prefix is set"@,
            ),
        )
    } else if strip_prefix is Some && logout is Some && !(strip_prefix->0).is_prefix_of(
        (logout->0).0,
    ) {
        Some(
            ConfigFault::LogoutPath(
                (logout->0).0,
                "must start with strip_prefix when strip_prefix is set"@,
            ),
        )
    } else {
        None
    }
}

/// Why a configuration is rejected: its paths, then the login cookie prefix,
/// the durations, and the derived browser-facing callback path.
pub open spec fn login_fault(
    callback_path: Seq<char>,
    session_lifetime: SessionLifetime,
    token_refresh_margin: Duration,
    default_token_lifetime: Duration,
    login_state_ttl: Duration,
    base_url: EndpointView,
    strip_prefix: Option<Seq<char>>,
    logout: Option<(Seq<char>, Option<Seq<char>>)>,
    login_cookie_prefix: Seq<char>,
) -> Option<ConfigFault> {
    let durations = duration_fault(
        session_lifetime,
        token_refresh_margin,
        default_token_lifetime,
        login_state_ttl,
    );
    let browser = browser_path(callback_path, strip_prefix, base_url.path);
    if path_fault(callback_path, strip_prefix, logout) is Some {
        path_fault(callback_path, strip_prefix, logout)
    } else if name_fault(login_cookie_prefix) is Some {
        Some(ConfigFault::LoginCookiePrefix(login_cookie_prefix, name_fault(login_cookie_prefix)->0))
    } else if durations is Some {
        durations
    } else if route_fault(browser) is Some {
        Some(ConfigFault::BaseUrl(base_url.text, route_fault(browser)->0))
    } else {
        None
    }
}

// -- The configuration --

/// Configuration for the login middleware; constructed via
/// [`builder`](Self::builder). Authorization server endpoints, client
/// credentials, and redirect URI are configured on the grant.
#[derive(Debug)]
#[non_exhaustive]
pub struct LoginConfig {
    /// Path at which the callback endpoint is mounted (e.g. `"/callback"`).
    pub callback_path: RoutePath,
    /// OAuth 2.0 scopes to request.
    pub scopes: Vec<String>,
    /// Whether to set the `Secure` flag and `__Host-`/`__Secure-` cookie name
    /// prefixes: `true` when the scheme of [`base_url`](Self::base_url) is
    /// `https`.
    pub secure: bool,
    /// Which party bounds the session's absolute lifetime. Idle timeout is
    /// configured separately, on the liveness store.
    pub session_lifetime: SessionLifetime,
    /// Which requests count as user activity. Only affects sessions with a
    /// liveness store.
    pub activity_policy: ActivityPolicy,
    /// How early to refresh before token expiry.
    pub token_refresh_margin: Duration,
    /// Lifetime assumed when the token response omits `expires_in`.
    pub default_token_lifetime: Duration,
    /// Lifetime (and `Max-Age`) of the per-flow login-state cookie; the user
    /// has this long to complete authentication.
    pub login_state_ttl: Duration,
    /// Canonical client-facing base URL (e.g. `"https://app.example.com"`),
    /// used to reconstruct the post-login redirect URL behind a front proxy.
    pub base_url: EndpointUrl,
    /// Path prefix added by a front proxy, stripped from the request path
    /// before constructing the original URL (e.g. `"/internal"`).
    pub strip_prefix: Option<RoutePath>,
    /// Logout endpoint configuration. When `None`, no logout endpoint is
    /// mounted.
    pub logout: Option<LogoutConfig>,
    /// Prefix for login-state cookie names. The full name is
    /// `{security_prefix}{login_cookie_prefix}_{state}`.
    pub login_cookie_prefix: CookieName,
    /// Browser-facing callback path, derived from `base_url`, `strip_prefix`,
    /// and `callback_path`; used as the `Path` scope on login-state cookies.
    pub browser_callback_path: RoutePath,
}

impl LoginConfig {
    /// Builds a [`LoginConfig`], validating paths and the `base_url`.
    ///
    /// # Errors
    ///
    /// Returns [`ConfigError`] if any path is malformed, the durations are
    /// invalid, or the cookie `Path` derived from `base_url` and
    /// `callback_path` is not cookie-safe.
    pub fn new(
        callback_path: &str,
        scopes: Vec<String>,
        session_lifetime: SessionLifetime,
        activity_policy: ActivityPolicy,
        token_refresh_margin: Duration,
        default_token_lifetime: Duration,
        login_state_ttl: Duration,
        base_url: EndpointUrl,
        strip_prefix: Option<&str>,
        logout: Option<LogoutConfig>,
        login_cookie_prefix: &str,
    ) -> (r: Result<Self, ConfigError>)
        ensures
            match r {
                Ok(c) => {
                    &&& login_fault(
                        callback_path@,
                        session_lifetime,
                        token_refresh_margin,
                        default_token_lifetime,
                        login_state_ttl,
                        base_url@,
                        opt_str(strip_prefix),
                        logout_texts(logout),
                        login_cookie_prefix@,
                    ) is None
                    &&& c.callback_path@ == callback_path@
                    &&& c.scopes == scopes
                    &&& c.secure == (base_url@.scheme == "https"@)
                    &&& c.session_lifetime == session_lifetime
                    &&& c.activity_policy == activity_policy
                    &&& c.token_refresh_margin == token_refresh_margin
                    &&& c.default_token_lifetime == default_token_lifetime
                    &&& c.login_state_ttl == login_state_ttl
                    &&& c.base_url == base_url
                    &&& c.stripped_prefix() == opt_str(strip_prefix)
                    &&& c.logout == logout
                    &&& c.login_cookie_prefix@ == login_cookie_prefix@
                    &&& c.browser_callback_path@ == browser_path(
                        callback_path@,
                        opt_str(strip_prefix),
                        base_url@.path,
                    )
                    &&& c.is_consistent()
                },
                Err(e) => login_fault(
                    callback_path@,
                    session_lifetime,
                    token_refresh_margin,
                    default_token_lifetime,
                    login_state_ttl,
                    base_url@,
                    opt_str(strip_prefix),
                    logout_texts(logout),
                    login_cookie_prefix@,
                ) == Some(e@),
            },
    {
        let callback_path = match RoutePath::new(callback_path) {
            Ok(p) => p,
            Err(e) => {
                return Err(ConfigError::InvalidCallbackPath { path: e.path, reason: e.reason });
            },
        };
        let strip_prefix = match strip_prefix {
            Some(prefix) => match RoutePath::new(prefix) {
                Ok(p) => Some(p),
                Err(e) => {
                    return Err(
                        ConfigError::InvalidStripPrefix { prefix: e.path, reason: e.reason },
                    );
                },
            },
            None => None,
        };
        // The redirect URI is parsed only to validate it: the stored value
        // stays the exact string, since the server matches it byte for byte.
        if let Some(logout) = &logout {
            if let Some(uri) = &logout.post_logout_redirect_uri {
                if !check_absolute_uri(uri.as_str()) {
                    return Err(
                        ConfigError::InvalidPostLogoutRedirectUri {
                            url: uri.clone(),
                            reason: "must be an absolute URL with scheme and authority",
                        },
                    );
                }
            }
        }
        // Engine-side paths carry the front proxy's prefix; a path outside it
        // would silently never match a real request.
        if let Some(prefix) = &strip_prefix {
            if !has_prefix(callback_path.as_str(), prefix.as_str()) {
                return Err(
                    ConfigError::InvalidCallbackPath {
                        path: callback_path.as_str().to_owned(),
                        reason: "must start with strip_prefix when strip_prefix is set",
                    },
                );
            }
            if let Some(logout) = &logout {
                if !has_prefix(logout.path.as_str(), prefix.as_str()) {
                    return Err(
                        ConfigError::InvalidLogoutPath {
                            path: logout.path.as_str().to_owned(),
                            reason: "must start with strip_prefix when strip_prefix is set",
                        },
                    );
                }
            }
        }
        // The prefix is interpolated into cookie names, so it carries the same
        // invariant as the stores' cookie name.
        let login_cookie_prefix = match CookieName::new(login_cookie_prefix) {
            Ok(n) => n,
            Err(e) => {
                return Err(
                    ConfigError::InvalidLoginCookiePrefix { prefix: e.name, reason: e.reason },
                );
            },
        };
        match validate_durations(
            session_lifetime,
            token_refresh_margin,
            default_token_lifetime,
            login_state_ttl,
        ) {
            Ok(_) => {},
            Err(e) => {
                return Err(e);
            },
        }
        // The callback is already a route path, but the base URL's path is
        // not: validate the joined result before it becomes a cookie `Path`.
        let browser = compute_browser_callback_path(
            &callback_path,
            strip_prefix.as_ref(),
            &base_url,
        );
        let browser_callback_path = match RoutePath::new(browser.as_str()) {
            Ok(p) => p,
            Err(e) => {
                return Err(
                    ConfigError::InvalidBaseUrl {
                        url: base_url.as_str().to_owned(),
                        reason: e.reason,
                    },
                );
            },
        };
        let secure = base_url.is_https();
        Ok(
            LoginConfig {
                callback_path,
                scopes,
                secure,
                session_lifetime,
                activity_policy,
                token_refresh_margin,
                default_token_lifetime,
                login_state_ttl,
                base_url,
                strip_prefix,
                logout,
                login_cookie_prefix,
                browser_callback_path,
            },
        )
    }

    /// The prefix a front proxy adds, if one is configured.
    pub open spec fn stripped_prefix(self) -> Option<Seq<char>> {
        match self.strip_prefix {
            Some(p) => Some(p@),
            None => None,
        }
    }

    /// What holds of every configuration that was built: the derived settings
    /// agree with those they derive from, the login routes lie under the front
    /// proxy's prefix, and the durations do not contradict each other.
    pub open spec fn is_consistent(self) -> bool {
        &&& self.secure == (self.base_url@.scheme == "https"@)
        &&& self.browser_callback_path@ == browser_path(
            self.callback_path@,
            self.stripped_prefix(),
            self.base_url@.path,
        )
        &&& route_fault(self.browser_callback_path@) is None
        &&& self.stripped_prefix() matches Some(prefix) ==> {
            &&& prefix.is_prefix_of(self.callback_path@)
            &&& self.logout matches Some(logout) ==> prefix.is_prefix_of(logout.path@)
        }
        &&& self.token_refresh_margin.nanos < self.default_token_lifetime.nanos
        &&& self.login_state_ttl.nanos > 0
        &&& self.session_lifetime.cap() matches Some(cap) ==> cap.nanos > 0
    }

    /// Starts a configuration from the settings that have no default. The
    /// others default to: first-party activity, a refresh margin of 30
    /// seconds, a token lifetime of 1 hour, 10 minutes to complete a login,
    /// no prefix to strip, no logout endpoint, and login-state cookies whose
    /// names begin with `huskarl_login`.
    pub fn builder(
        callback_path: &str,
        scopes: Vec<String>,
        session_lifetime: SessionLifetime,
        base_url: EndpointUrl,
    ) -> (b: LoginConfigBuilder)
        ensures
            b.callback_path@ == callback_path@,
            b.scopes == scopes,
            b.session_lifetime == session_lifetime,
            b.base_url == base_url,
            b.activity_policy == ActivityPolicy::FirstParty,
            b.token_refresh_margin.nanos == 30_000_000_000,
            b.default_token_lifetime.nanos == 3_600_000_000_000,
            b.login_state_ttl.nanos == 600_000_000_000,
            b.strip_prefix is None,
            b.logout is None,
            b.login_cookie_prefix@ == DEFAULT_LOGIN_COOKIE_PREFIX@,
    {
        LoginConfigBuilder {
            callback_path: callback_path.to_owned(),
            scopes,
            session_lifetime,
            base_url,
            activity_policy: ActivityPolicy::default(),
            token_refresh_margin: Duration::from_secs(30),
            default_token_lifetime: Duration::from_hours(1),
            login_state_ttl: Duration::from_mins(10),
            strip_prefix: None,
            logout: None,
            login_cookie_prefix: DEFAULT_LOGIN_COOKIE_PREFIX.to_owned(),
        }
    }
}

/// The settings of a [`LoginConfig`] to be; see [`LoginConfig::builder`].
#[derive(Debug)]
#[must_use]
pub struct LoginConfigBuilder {
    /// Path at which the callback endpoint is mounted.
    pub callback_path: String,
    /// OAuth 2.0 scopes to request.
    pub scopes: Vec<String>,
    /// Which party bounds the session's absolute lifetime.
    pub session_lifetime: SessionLifetime,
    /// Canonical client-facing base URL.
    pub base_url: EndpointUrl,
    /// Which requests count as user activity.
    pub activity_policy: ActivityPolicy,
    /// How early to refresh before token expiry.
    pub token_refresh_margin: Duration,
    /// Lifetime assumed when the token response omits `expires_in`.
    pub default_token_lifetime: Duration,
    /// Lifetime of the per-flow login-state cookie.
    pub login_state_ttl: Duration,
    /// Front-proxy path prefix to strip before reconstructing the URL.
    pub strip_prefix: Option<String>,
    /// Logout endpoint configuration.
    pub logout: Option<LogoutConfig>,
    /// Prefix for login-state cookie names.
    pub login_cookie_prefix: String,
}

impl LoginConfigBuilder {
    /// Why these settings are rejected, if they are.
    pub open spec fn fault(self) -> Option<ConfigFault> {
        login_fault(
            self.callback_path@,
            self.session_lifetime,
            self.token_refresh_margin,
            self.default_token_lifetime,
            self.login_state_ttl,
            self.base_url@,
            opt_text(self.strip_prefix),
            logout_texts(self.logout),
            self.login_cookie_prefix@,
        )
    }

    /// Sets which requests count as user activity.
    pub fn activity_policy(self, activity_policy: ActivityPolicy) -> (b: Self)
        ensures
            b == (LoginConfigBuilder { activity_policy, ..self }),
    {
        LoginConfigBuilder { activity_policy, ..self }
    }

    /// Sets how early to refresh before token expiry.
    pub fn token_refresh_margin(self, token_refresh_margin: Duration) -> (b: Self)
        ensures
            b == (LoginConfigBuilder { token_refresh_margin, ..self }),
    {
        LoginConfigBuilder { token_refresh_margin, ..self }
    }

    /// Sets the lifetime assumed when the token response omits `expires_in`.
    pub fn default_token_lifetime(self, default_token_lifetime: Duration) -> (b: Self)
        ensures
            b == (LoginConfigBuilder { default_token_lifetime, ..self }),
    {
        LoginConfigBuilder { default_token_lifetime, ..self }
    }

    /// Sets the lifetime of the per-flow login-state cookie.
    pub fn login_state_ttl(self, login_state_ttl: Duration) -> (b: Self)
        ensures
            b == (LoginConfigBuilder { login_state_ttl, ..self }),
    {
        LoginConfigBuilder { login_state_ttl, ..self }
    }

    /// Sets the front-proxy path prefix to strip.
    pub fn strip_prefix(self, strip_prefix: &str) -> (b: Self)
        ensures
            opt_text(b.strip_prefix) == Some(strip_prefix@),
            b == (LoginConfigBuilder { strip_prefix: b.strip_prefix, ..self }),
    {
        LoginConfigBuilder { strip_prefix: Some(strip_prefix.to_owned()), ..self }
    }

    /// Mounts a logout endpoint.
    pub fn logout(self, logout: LogoutConfig) -> (b: Self)
        ensures
            b == (LoginConfigBuilder { logout: Some(logout), ..self }),
    {
        LoginConfigBuilder { logout: Some(logout), ..self }
    }

    /// Sets the prefix for login-state cookie names.
    pub fn login_cookie_prefix(self, login_cookie_prefix: &str) -> (b: Self)
        ensures
            b.login_cookie_prefix@ == login_cookie_prefix@,
            b == (LoginConfigBuilder { login_cookie_prefix: b.login_cookie_prefix, ..self }),
    {
        LoginConfigBuilder { login_cookie_prefix: login_cookie_prefix.to_owned(), ..self }
    }

    /// Validates the settings; see [`LoginConfig::new`].
    ///
    /// # Errors
    ///
    /// Returns [`ConfigError`] as [`LoginConfig::new`] does.
    pub fn build(self) -> (r: Result<LoginConfig, ConfigError>)
        ensures
            match r {
                Ok(c) => {
                    &&& self.fault() is None
                    &&& c.is_consistent()
                    &&& c.callback_path@ == self.callback_path@
                    &&& c.scopes == self.scopes
                    &&& c.session_lifetime == self.session_lifetime
                    &&& c.activity_policy == self.activity_policy
                    &&& c.token_refresh_margin == self.token_refresh_margin
                    &&& c.default_token_lifetime == self.default_token_lifetime
                    &&& c.login_state_ttl == self.login_state_ttl
                    &&& c.base_url == self.base_url
                    &&& c.stripped_prefix() == opt_text(self.strip_prefix)
                    &&& c.logout == self.logout
                    &&& c.login_cookie_prefix@ == self.login_cookie_prefix@
                },
                Err(e) => self.fault() == Some(e@),
            },
    {
        let strip_prefix = match &self.strip_prefix {
            Some(prefix) => Some(prefix.as_str()),
            None => None,
        };
        LoginConfig::new(
            self.callback_path.as_str(),
            self.scopes,
            self.session_lifetime,
            self.activity_policy,
            self.token_refresh_margin,
            self.default_token_lifetime,
            self.login_state_ttl,
            self.base_url,
            strip_prefix,
            self.logout,
            self.login_cookie_prefix.as_str(),
        )
    }
}

// -- Laws of the configuration --

/// A path that may be a route: it begins with a slash and holds no query, no
/// fragment, no cookie separator and no control character.
pub open spec fn is_route(path: Seq<char>) -> bool {
    &&& path.len() > 0 && path[0] == '/'
    &&& forall|i: int|
        0 <= i < path.len() ==> {
            let c = #[trigger] path[i];
            c as int >= 32 && c as int != 127 && c != '?' && c != '#' && c != ';'
        }
}

proof fn lemma_route_fault(path: Seq<char>)
    ensures
        route_fault(path) is None <==> is_route(path),
{
    if route_fault(path) is None {
        assert forall|i: int| 0 <= i < path.len() implies {
            let c = #[trigger] path[i];
            c as int >= 32 && c as int != 127 && c != '?' && c != '#' && c != ';'
        } by {
            assert(path.contains(path[i]));
            assert(!is_control(path[i]));
        }
    } else if is_route(path) {
        assert forall|i: int| 0 <= i < path.len() implies !is_control(#[trigger] path[i]) by {}
        if path.contains('?') {
            let i = choose|i: int| 0 <= i < path.len() && path[i] == '?';
        }
        if path.contains('#') {
            let i = choose|i: int| 0 <= i < path.len() && path[i] == '#';
        }
        if path.contains(';') {
            let i = choose|i: int| 0 <= i < path.len() && path[i] == ';';
        }
    }
}

/// A path is accepted exactly when it may be a route, and kept as it is.
pub proof fn law_routes_are_accepted(path: &str, r: Result<RoutePath, InvalidRoutePath>)
    requires
        call_ensures(RoutePath::new, (path,), r),
    ensures
        r is Ok <==> is_route(path@),
        r matches Ok(p) ==> p@ == path@,
        r matches Err(e) ==> e.path@ == path@,
{
    lemma_route_fault(path@);
}

/// What counts as activity: under the strictest policy navigations, under the
/// loosest everything, and between them everything but cross-site requests that
/// are no navigations.
pub proof fn law_policy_decides_activity(
    policy: ActivityPolicy,
    headers: HeaderMap,
    navigates: bool,
    cross_site: bool,
    counts: bool,
)
    requires
        call_ensures(is_navigation_request, (&headers,), navigates),
        call_ensures(is_cross_site_request, (&headers,), cross_site),
        call_ensures(ActivityPolicy::counts_as_activity, (policy, &headers), counts),
    ensures
        navigates ==> counts,
        policy is NavigationsOnly && !navigates ==> !counts,
        policy is FirstParty && !navigates ==> counts == !cross_site,
        policy is AllRequests ==> counts,
{
}

/// A session is capped exactly where this crate bounds it, and by that bound.
pub proof fn law_only_a_bound_caps(lifetime: SessionLifetime, cap: Option<Duration>)
    requires
        call_ensures(SessionLifetime::bound, (lifetime,), cap),
    ensures
        lifetime is DelegatedToAuthorizationServer ==> cap is None,
        lifetime matches SessionLifetime::Bounded(d) ==> cap == Some(d),
        cap == lifetime.cap(),
{
}

/// A segment behind a base path, with one slash between them: `stem` is the
/// base path without the slashes it ends in.
pub open spec fn behind(stem: Seq<char>, segment: Seq<char>) -> Seq<char> {
    if segment.len() > 0 && segment[0] == '/' {
        stem + segment
    } else {
        stem + seq!['/'] + segment
    }
}

/// Whether `stem` is `path` without the slashes it ends in.
pub open spec fn is_stem(stem: Seq<char>, path: Seq<char>) -> bool {
    &&& stem.len() <= path.len() && stem == path.take(stem.len() as int)
    &&& stem.len() == 0 || stem.last() != '/'
    &&& forall|i: int| stem.len() <= i < path.len() ==> path[i] == '/'
}

/// A path joined to a base path stands behind its stem.
pub proof fn lemma_joined_behind_stem(base_path: Seq<char>, stem: Seq<char>, segment: Seq<char>)
    requires
        is_stem(stem, base_path),
    ensures
        joined_path(base_path, segment) == behind(stem, segment),
{
    reveal_strlit("/");
    assert("/"@ =~= seq!['/']);
    let slashes = base_path.skip(stem.len() as int);
    assert(stem + slashes =~= base_path);
    crate::text::law_trim_end_undoes_padding(stem, '/', slashes);
    assert(stem + ("/"@ + segment) =~= stem + seq!['/'] + segment);
}

/// Joined to a base URL, a segment stands behind its path with exactly one
/// slash between them.
pub proof fn law_join_puts_one_slash(
    base_url: EndpointUrl,
    stem: Seq<char>,
    segment: &str,
    joined: String,
)
    requires
        call_ensures(join_base_path, (&base_url, segment), joined),
        is_stem(stem, base_url@.path),
    ensures
        joined@ == behind(stem, segment@),
{
    lemma_joined_behind_stem(base_url@.path, stem, segment@);
}

/// Whether `rest` is `path` without the prefix a front proxy adds: all of it
/// where there is no such prefix.
pub open spec fn is_inner(rest: Seq<char>, path: Seq<char>, prefix: Option<Seq<char>>) -> bool {
    if prefix is Some && prefix->0.is_prefix_of(path) {
        path == prefix->0 + rest
    } else {
        rest == path
    }
}

/// Stripping the prefix leaves what stands behind it.
pub proof fn lemma_stripped_is_inner(rest: Seq<char>, path: Seq<char>, prefix: Option<Seq<char>>)
    requires
        is_inner(rest, path, prefix),
    ensures
        stripped(path, prefix) == rest,
{
    if prefix is Some && prefix->0.is_prefix_of(path) {
        assert((prefix->0 + rest).skip(prefix->0.len() as int) =~= rest);
    }
}

/// A front proxy's prefix is taken off the path it was put on, and no other
/// path is touched.
pub proof fn law_prefix_is_taken_off(
    path: &str,
    prefix: Option<&RoutePath>,
    rest: Seq<char>,
    inner: String,
)
    requires
        call_ensures(strip_route_prefix, (path, prefix), inner),
        is_inner(
            rest,
            path@,
            if prefix is Some {
                Some(prefix->0@)
            } else {
                None
            },
        ),
    ensures
        inner@ == rest,
{
    lemma_stripped_is_inner(
        rest,
        path@,
        if prefix is Some {
            Some(prefix->0@)
        } else {
            None
        },
    );
}

/// The settings are accepted exactly when the token lifetime, the time to log
/// in and the cap, where there is one, are not zero, and the refresh margin is
/// shorter than the token lifetime.
pub proof fn law_durations_must_agree(
    session_lifetime: SessionLifetime,
    token_refresh_margin: Duration,
    default_token_lifetime: Duration,
    login_state_ttl: Duration,
    r: Result<(), ConfigError>,
)
    requires
        call_ensures(
            validate_durations,
            (session_lifetime, token_refresh_margin, default_token_lifetime, login_state_ttl),
            r,
        ),
    ensures
        r is Ok <==> {
            &&& default_token_lifetime.nanos > 0
            &&& login_state_ttl.nanos > 0
            &&& session_lifetime matches SessionLifetime::Bounded(cap) ==> cap.nanos > 0
            &&& token_refresh_margin.nanos < default_token_lifetime.nanos
        },
        r is Err ==> r->Err_0@ is Duration,
{
}

/// Whether a logout configuration names an absolute post-logout URI, if any.
pub open spec fn returns_absolutely(logout: Option<LogoutConfig>) -> bool {
    logout matches Some(l) ==> (l.post_logout_redirect_uri matches Some(uri) ==> {
        &&& uri_origin(uri@) is Some
        &&& (uri_origin(uri@)->0).0 is Some
        &&& (uri_origin(uri@)->0).1 is Some
    })
}

/// A configuration is built exactly from settings that hold together: routes
/// that are routes and lie under the front proxy's prefix, an absolute
/// post-logout URI, a bare cookie name, durations that agree, and a callback
/// whose browser-facing path is a route. It keeps what it was given, is secure
/// exactly on `https`, and scopes its cookies to that browser-facing path.
pub proof fn law_sound_settings_are_accepted(
    callback_path: &str,
    scopes: Vec<String>,
    session_lifetime: SessionLifetime,
    activity_policy: ActivityPolicy,
    token_refresh_margin: Duration,
    default_token_lifetime: Duration,
    login_state_ttl: Duration,
    base_url: EndpointUrl,
    strip_prefix: Option<&str>,
    logout: Option<LogoutConfig>,
    login_cookie_prefix: &str,
    stem: Seq<char>,
    rest: Seq<char>,
    r: Result<LoginConfig, ConfigError>,
)
    requires
        call_ensures(
            LoginConfig::new,
            (
                callback_path,
                scopes,
                session_lifetime,
                activity_policy,
                token_refresh_margin,
                default_token_lifetime,
                login_state_ttl,
                base_url,
                strip_prefix,
                logout,
                login_cookie_prefix,
            ),
            r,
        ),
        is_stem(stem, base_url@.path),
        is_inner(rest, callback_path@, opt_str(strip_prefix)),
    ensures
        r is Ok <==> {
            &&& is_route(callback_path@)
            &&& strip_prefix matches Some(prefix) ==> {
                &&& is_route(prefix@)
                &&& prefix@.is_prefix_of(callback_path@)
                &&& logout matches Some(l) ==> prefix@.is_prefix_of(l.path@)
            }
            &&& returns_absolutely(logout)
            &&& crate::cookie::is_bare_name(login_cookie_prefix@)
            &&& default_token_lifetime.nanos > 0
            &&& login_state_ttl.nanos > 0
            &&& session_lifetime matches SessionLifetime::Bounded(cap) ==> cap.nanos > 0
            &&& token_refresh_margin.nanos < default_token_lifetime.nanos
            &&& is_route(behind(stem, rest))
        },
        r matches Ok(c) ==> {
            &&& c.callback_path@ == callback_path@
            &&& c.scopes == scopes
            &&& c.secure <==> base_url@.scheme == "https"@
            &&& c.session_lifetime == session_lifetime
            &&& c.activity_policy == activity_policy
            &&& c.token_refresh_margin == token_refresh_margin
            &&& c.default_token_lifetime == default_token_lifetime
            &&& c.login_state_ttl == login_state_ttl
            &&& c.base_url == base_url
            &&& c.strip_prefix is Some <==> strip_prefix is Some
            &&& strip_prefix matches Some(prefix) ==> c.strip_prefix->0@ == prefix@
            &&& c.logout == logout
            &&& c.login_cookie_prefix@ == login_cookie_prefix@
            &&& c.browser_callback_path@ == behind(stem, rest)
        },
{
    lemma_route_fault(callback_path@);
    if let Some(prefix) = strip_prefix {
        lemma_route_fault(prefix@);
    }
    crate::cookie::lemma_name_fault(login_cookie_prefix@);
    lemma_stripped_is_inner(rest, callback_path@, opt_str(strip_prefix));
    lemma_joined_behind_stem(base_url@.path, stem, rest);
    lemma_route_fault(behind(stem, rest));
}

/// The settings that have a default have this one: first-party activity, half a
/// minute before the expiry, an hour, ten minutes; no prefix and no logout.
pub proof fn law_builder_defaults(
    callback_path: &str,
    scopes: Vec<String>,
    session_lifetime: SessionLifetime,
    base_url: EndpointUrl,
    b: LoginConfigBuilder,
)
    requires
        call_ensures(
            LoginConfig::builder,
            (callback_path, scopes, session_lifetime, base_url),
            b,
        ),
    ensures
        b.callback_path@ == callback_path@,
        b.scopes == scopes,
        b.session_lifetime == session_lifetime,
        b.base_url == base_url,
        b.activity_policy is FirstParty,
        b.token_refresh_margin.nanos == 30 * 1_000_000_000int,
        b.default_token_lifetime.nanos == 3600 * 1_000_000_000int,
        b.login_state_ttl.nanos == 600 * 1_000_000_000int,
        b.strip_prefix is None,
        b.logout is None,
        b.login_cookie_prefix@ == "huskarl_login"@,
{
}

/// Building is checking: a builder's settings make a configuration exactly when
/// they would as they are, and the same one.
pub proof fn law_build_is_the_check(
    b: LoginConfigBuilder,
    callback_path: &str,
    strip_prefix: Option<&str>,
    login_cookie_prefix: &str,
    built: Result<LoginConfig, ConfigError>,
    checked: Result<LoginConfig, ConfigError>,
)
    requires
        callback_path@ == b.callback_path@,
        opt_str(strip_prefix) == opt_text(b.strip_prefix),
        login_cookie_prefix@ == b.login_cookie_prefix@,
        call_ensures(LoginConfigBuilder::build, (b,), built),
        call_ensures(
            LoginConfig::new,
            (
                callback_path,
                b.scopes,
                b.session_lifetime,
                b.activity_policy,
                b.token_refresh_margin,
                b.default_token_lifetime,
                b.login_state_ttl,
                b.base_url,
                strip_prefix,
                b.logout,
                login_cookie_prefix,
            ),
            checked,
        ),
    ensures
        built is Ok <==> checked is Ok,
        built matches Err(e) ==> e@ == checked->Err_0@,
        built matches Ok(c) ==> {
            let same = checked->Ok_0;
            &&& c.callback_path@ == same.callback_path@
            &&& c.scopes == same.scopes
            &&& c.secure == same.secure
            &&& c.session_lifetime == same.session_lifetime
            &&& c.activity_policy == same.activity_policy
            &&& c.token_refresh_margin == same.token_refresh_margin
            &&& c.default_token_lifetime == same.default_token_lifetime
            &&& c.login_state_ttl == same.login_state_ttl
            &&& c.base_url == same.base_url
            &&& c.stripped_prefix() == same.stripped_prefix()
            &&& c.logout == same.logout
            &&& c.login_cookie_prefix@ == same.login_cookie_prefix@
            &&& c.browser_callback_path@ == same.browser_callback_path@
        },
{
}

/// A logout endpoint is mounted exactly on a route, with what it is given.
pub proof fn law_logout_is_mounted_on_a_route(
    path: &str,
    end_session_endpoint: Option<EndpointUrl>,
    post_logout_redirect_uri: Option<String>,
    r: Result<LogoutConfig, ConfigError>,
)
    requires
        call_ensures(
            LogoutConfig::new,
            (path, end_session_endpoint, post_logout_redirect_uri),
            r,
        ),
    ensures
        r is Ok <==> is_route(path@),
        r matches Ok(c) ==> {
            &&& c.path@ == path@
            &&& c.end_session_endpoint == end_session_endpoint
            &&& c.post_logout_redirect_uri == post_logout_redirect_uri
        },
        r is Err ==> r->Err_0@ is LogoutPath,
{
    lemma_route_fault(path@);
}

/// Each setting of a builder is set alone, to what is given.
pub proof fn law_builder_sets_one_setting(
    b: LoginConfigBuilder,
    policy: ActivityPolicy,
    margin: Duration,
    lifetime: Duration,
    ttl: Duration,
    with_policy: LoginConfigBuilder,
    with_margin: LoginConfigBuilder,
    with_lifetime: LoginConfigBuilder,
    with_ttl: LoginConfigBuilder,
    prefix: &str,
    with_prefix: LoginConfigBuilder,
    logout: LogoutConfig,
    with_logout: LoginConfigBuilder,
    name: &str,
    with_name: LoginConfigBuilder,
)
    requires
        call_ensures(LoginConfigBuilder::strip_prefix, (b, prefix), with_prefix),
        call_ensures(LoginConfigBuilder::logout, (b, logout), with_logout),
        call_ensures(LoginConfigBuilder::login_cookie_prefix, (b, name), with_name),
        call_ensures(LoginConfigBuilder::activity_policy, (b, policy), with_policy),
        call_ensures(LoginConfigBuilder::token_refresh_margin, (b, margin), with_margin),
        call_ensures(LoginConfigBuilder::default_token_lifetime, (b, lifetime), with_lifetime),
        call_ensures(LoginConfigBuilder::login_state_ttl, (b, ttl), with_ttl),
    ensures
        with_policy == (LoginConfigBuilder { activity_policy: policy, ..b }),
        with_margin == (LoginConfigBuilder { token_refresh_margin: margin, ..b }),
        with_lifetime == (LoginConfigBuilder { default_token_lifetime: lifetime, ..b }),
        with_ttl == (LoginConfigBuilder { login_state_ttl: ttl, ..b }),
        with_prefix.strip_prefix is Some && with_prefix.strip_prefix->0@ == prefix@,
        with_prefix == (LoginConfigBuilder { strip_prefix: with_prefix.strip_prefix, ..b }),
        with_logout == (LoginConfigBuilder { logout: Some(logout), ..b }),
        with_name.login_cookie_prefix@ == name@,
        with_name == (LoginConfigBuilder { login_cookie_prefix: with_name.login_cookie_prefix, ..b }),
{
}

/// The browser-facing path of the callback is its path without the front
/// proxy's prefix, behind the base path.
pub proof fn law_callback_is_where_the_browser_sees_it(
    callback_path: RoutePath,
    strip_prefix: Option<&RoutePath>,
    base_url: EndpointUrl,
    stem: Seq<char>,
    rest: Seq<char>,
    s: String,
)
    requires
        call_ensures(
            compute_browser_callback_path,
            (&callback_path, strip_prefix, &base_url),
            s,
        ),
        is_stem(stem, base_url@.path),
        is_inner(
            rest,
            callback_path@,
            if strip_prefix is Some {
                Some(strip_prefix->0@)
            } else {
                None
            },
        ),
    ensures
        s@ == behind(stem, rest),
{
    lemma_stripped_is_inner(rest, callback_path@, opt_route(strip_prefix));
    lemma_joined_behind_stem(base_url@.path, stem, rest);
}

/// However a route path is made of a text, it is accepted alike.
pub proof fn law_routes_convert_as_they_are_made(
    path: &str,
    owned: String,
    tried: Result<RoutePath, InvalidRoutePath>,
    tried_owned: Result<RoutePath, InvalidRoutePath>,
)
    requires
        owned@ == path@,
        call_ensures(<RoutePath as TryFrom<&str>>::try_from, (path,), tried),
        call_ensures(<RoutePath as TryFrom<String>>::try_from, (owned,), tried_owned),
    ensures
        tried is Ok <==> is_route(path@),
        tried_owned is Ok <==> is_route(path@),
        tried is Ok ==> tried->Ok_0@ == path@ && tried_owned->Ok_0@ == path@,
{
    lemma_route_fault(path@);
}

} // verus!
