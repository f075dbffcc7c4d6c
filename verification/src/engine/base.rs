//! [`LoginEngine`]: the configuration of a deployment, stamped onto its
//! session store, and the counters it reports.

use vstd::prelude::*;

use crate::config::LoginConfig;
use crate::engine::response::{plain_error, ErrorReply, ErrorView};
use crate::metrics::{
    counter_view, emit_counter, label_texts, Counter, CounterView, Label, LoginCompleteResult,
    LoginStartResult, RefreshResult,
};
use crate::session::{stamped, SessionDriver};
use crate::text::{opt_str, opt_text, same_text};

verus! {

/// Why a presented session was torn down.
#[derive(Debug, Clone, Copy, PartialEq, Eq, Structural)]
#[non_exhaustive]
pub enum TeardownReason {
    /// The session's absolute lifetime is exceeded.
    MaxLifetime,
    /// Idle timeout exceeded (server-side liveness verdict).
    IdleTimeout,
    /// Session timestamps too far in the future: corrupt or forged.
    ClockSkew,
    /// The authorization server conclusively rejected the refresh token
    /// (e.g. `invalid_grant`).
    RefreshRejected,
    /// The access token expired and the session holds no refresh token.
    NoRefreshToken,
}

impl TeardownReason {
    /// The label value of this reason.
    pub open spec fn label(self) -> Seq<char> {
        match self {
            TeardownReason::MaxLifetime => "max_lifetime"@,
            TeardownReason::IdleTimeout => "idle_timeout"@,
            TeardownReason::ClockSkew => "clock_skew"@,
            TeardownReason::RefreshRejected => "refresh_rejected"@,
            TeardownReason::NoRefreshToken => "no_refresh_token"@,
        }
    }

    /// Returns a `&'static str` suitable for use as a Prometheus label value.
    #[must_use]
    pub fn as_str(&self) -> (s: &'static str)
        ensures
            s@ == self.label(),
    {
        match self {
            TeardownReason::MaxLifetime => "max_lifetime",
            TeardownReason::IdleTimeout => "idle_timeout",
            TeardownReason::ClockSkew => "clock_skew",
            TeardownReason::RefreshRejected => "refresh_rejected",
            TeardownReason::NoRefreshToken => "no_refresh_token",
        }
    }
}

/// Framework-agnostic login engine: decides every step of the OAuth flow
/// (start, callback, logout) and of a session's life, for the store `SD`.
#[non_exhaustive]
pub struct LoginEngine<SD> {
    /// The login configuration.
    pub config: LoginConfig,
    /// The session store.
    pub session_store: SD,
    /// Instance `name` label for emitted counters; `None` omits it.
    pub metrics_name: Option<String>,
}

/// Where a request goes.
#[derive(Debug, Clone, Copy, PartialEq, Eq, Structural)]
pub enum Route {
    /// The OAuth callback.
    Callback,
    /// The logout endpoint.
    Logout,
    /// A login route asked with a method it does not accept: only `GET`.
    GetOnly,
    /// A login route asked with a method it does not accept: only `POST`.
    PostOnly,
    /// Not a login route: the request is the application's.
    Application,
}

/// Where a request goes: the callback accepts only `GET`, logout only `POST`.
pub open spec fn route_for(config: LoginConfig, method: Seq<char>, path: Seq<char>) -> Route {
    if config.callback_path@ == path {
        if method == "GET"@ {
            Route::Callback
        } else {
            Route::GetOnly
        }
    } else if config.logout matches Some(logout) && logout.path@ == path {
        if method == "POST"@ {
            Route::Logout
        } else {
            Route::PostOnly
        }
    } else {
        Route::Application
    }
}

/// The `405 Method Not Allowed` error that names the method a path accepts.
pub open spec fn wrong_method(allow: Seq<char>) -> ErrorView {
    ErrorView { status: 405, message: "method not allowed"@, extra: seq![("allow"@, allow)] }
}

/// The error a route is refused with, if it is.
pub open spec fn refusal_of(route: Route) -> Option<ErrorView> {
    match route {
        Route::GetOnly => Some(wrong_method("GET"@)),
        Route::PostOnly => Some(wrong_method("POST"@)),
        _ => None,
    }
}

/// A request is the application's exactly when its path is neither the callback
/// path nor the configured logout path. On the callback path any method but
/// `GET` is refused with a 405 that allows `GET`, on the logout path any method
/// but `POST` with one that allows `POST`; nothing else is refused.
pub proof fn law_login_routes_refuse_other_methods(
    config: LoginConfig,
    method: Seq<char>,
    path: Seq<char>,
)
    ensures
        ({
            let on_callback = config.callback_path@ == path;
            let on_logout = !on_callback && (config.logout matches Some(logout) && logout.path@
                == path);
            let route = route_for(config, method, path);
            &&& route is Application <==> !on_callback && !on_logout
            &&& refusal_of(route) == if on_callback && method != "GET"@ {
                Some(wrong_method("GET"@))
            } else if on_logout && method != "POST"@ {
                Some(wrong_method("POST"@))
            } else {
                None
            }
        }),
{
}

/// The counter for a login redirect attempt.
pub open spec fn login_start_counter(
    result: LoginStartResult,
    metrics_name: Option<Seq<char>>,
) -> CounterView {
    counter_view("huskarl.login.start"@, seq![("outcome"@, result.label())], metrics_name)
}

/// The counter for a processed callback.
pub open spec fn login_complete_counter(
    result: LoginCompleteResult,
    as_error: Option<Seq<char>>,
    metrics_name: Option<Seq<char>>,
) -> CounterView {
    counter_view(
        "huskarl.login.complete"@,
        seq![
            ("outcome"@, result.label()),
            (
                "error"@,
                match as_error {
                    Some(e) => e,
                    None => "none"@,
                },
            ),
        ],
        metrics_name,
    )
}

/// The counter for a token refresh.
pub open spec fn refresh_counter(
    result: RefreshResult,
    metrics_name: Option<Seq<char>>,
) -> CounterView {
    counter_view("huskarl.session.refresh"@, seq![("outcome"@, result.label())], metrics_name)
}

/// The counter for a torn-down session.
pub open spec fn teardown_counter(
    reason: TeardownReason,
    metrics_name: Option<Seq<char>>,
) -> CounterView {
    counter_view("huskarl.session.teardown"@, seq![("reason"@, reason.label())], metrics_name)
}

impl<SD: SessionDriver> LoginEngine<SD> {
    /// Builds a [`LoginEngine`], stamping the store with the values derived
    /// from the configuration, so that session cookies share one security
    /// policy with the login-state cookie and no cookie outlives the session
    /// cap.
    pub fn new(config: LoginConfig, session_store: SD, metrics_name: Option<&str>) -> (e: Self)
        ensures
            e.config == config,
            opt_text(e.metrics_name) == opt_str(metrics_name),
            e.session_store.cookie_settings() == stamped(
                session_store.cookie_settings(),
                config.secure,
                config.session_lifetime.cap(),
                opt_str(metrics_name),
            ),
            e.session_store.frozen_cap() == config.session_lifetime.cap(),
            e.session_store.is_stamped_from(
                &session_store,
                config.secure,
                config.session_lifetime.cap(),
                opt_str(metrics_name),
            ),
            e.session_store.cookie_settings().secure == config.secure,
            config.session_lifetime.cap() matches Some(cap)
                ==> e.session_store.cookie_settings().max_age.nanos <= cap.nanos,
    {
        let mut session_store = session_store;
        session_store.apply_session_policy(
            config.secure,
            config.session_lifetime.bound(),
            metrics_name,
        );
        let metrics_name = match metrics_name {
            Some(n) => Some(n.to_owned()),
            None => None,
        };
        LoginEngine { config, session_store, metrics_name }
    }
}

impl<SD> LoginEngine<SD> {
    /// The instance name on this engine's counters.
    pub open spec fn instance(&self) -> Option<Seq<char>> {
        opt_text(self.metrics_name)
    }

    fn metrics_label(&self) -> (name: Option<&str>)
        ensures
            opt_str(name) == self.instance(),
    {
        match &self.metrics_name {
            Some(n) => Some(n.as_str()),
            None => None,
        }
    }

    /// Whether a request is for the configured callback or logout path, and
    /// whether its method is accepted there.
    ///
    /// Pass the engine-side path (including any front-proxy `strip_prefix`).
    pub fn try_handle_login_route(&self, method: &str, path: &str) -> (r: Route)
        ensures
            r == route_for(self.config, method@, path@),
    {
        if same_text(self.config.callback_path.as_str(), path) {
            return if same_text(method, "GET") {
                Route::Callback
            } else {
                Route::GetOnly
            };
        }
        if let Some(logout) = &self.config.logout {
            if same_text(logout.path.as_str(), path) {
                return if same_text(method, "POST") {
                    Route::Logout
                } else {
                    Route::PostOnly
                };
            }
        }
        Route::Application
    }

    /// The `405 Method Not Allowed` error with an `Allow` header.
    pub fn method_not_allowed(&self, allow: &str) -> (e: ErrorReply)
        ensures
            e@ == wrong_method(allow@),
    {
        let e = ErrorReply::new(405, "method not allowed").with_header("allow", allow);
        proof {
            assert(e@.extra =~= seq![("allow"@, allow@)]);
        }
        e
    }

    /// The error a route is refused with: a login route asked with another
    /// method than it accepts names the one it does. `None` for a route that
    /// is handled, and for the application's own.
    pub fn route_refusal(&self, route: Route) -> (r: Option<ErrorReply>)
        ensures
            match r {
                Some(e) => refusal_of(route) == Some(e@),
                None => refusal_of(route) is None,
            },
    {
        match route {
            Route::GetOnly => Some(self.method_not_allowed("GET")),
            Route::PostOnly => Some(self.method_not_allowed("POST")),
            Route::Callback => None,
            Route::Logout => None,
            Route::Application => None,
        }
    }

    /// An error to be rendered through the configured error page.
    pub fn render_error(&self, status: u16, message: &str) -> (e: ErrorReply)
        ensures
            e@ == plain_error(status, message@),
    {
        ErrorReply::new(status, message)
    }

    /// The counter for a login redirect attempt.
    pub fn record_login_start(&self, result: LoginStartResult) -> (c: Counter)
        ensures
            c@ == login_start_counter(result, self.instance()),
    {
        let mut labels: Vec<Label> = Vec::new();
        labels.push(Label::new("outcome", result.as_str()));
        proof {
            assert(label_texts(labels@) =~= seq![("outcome"@, result.label())]);
        }
        emit_counter("huskarl.login.start", labels, self.metrics_label())
    }

    /// The counter for a processed callback.
    pub fn record_login_complete(
        &self,
        result: LoginCompleteResult,
        as_error: Option<&'static str>,
    ) -> (c: Counter)
        ensures
            c@ == login_complete_counter(result, opt_str(as_error), self.instance()),
    {
        let mut labels: Vec<Label> = Vec::new();
        labels.push(Label::new("outcome", result.as_str()));
        labels.push(
            Label::new(
                "error",
                match as_error {
                    Some(e) => e,
                    None => "none",
                },
            ),
        );
        proof {
            assert(label_texts(labels@) =~= seq![labels@[0]@, labels@[1]@]);
        }
        emit_counter("huskarl.login.complete", labels, self.metrics_label())
    }

    /// The counter for a token refresh.
    pub fn record_refresh(&self, result: RefreshResult) -> (c: Counter)
        ensures
            c@ == refresh_counter(result, self.instance()),
    {
        let mut labels: Vec<Label> = Vec::new();
        labels.push(Label::new("outcome", result.as_str()));
        proof {
            assert(label_texts(labels@) =~= seq![("outcome"@, result.label())]);
        }
        emit_counter("huskarl.session.refresh", labels, self.metrics_label())
    }

    /// The counter for a torn-down session.
    pub fn record_teardown(&self, reason: TeardownReason) -> (c: Counter)
        ensures
            c@ == teardown_counter(reason, self.instance()),
    {
        let mut labels: Vec<Label> = Vec::new();
        labels.push(Label::new("reason", reason.as_str()));
        proof {
            assert(label_texts(labels@) =~= seq![("reason"@, reason.label())]);
        }
        emit_counter("huskarl.session.teardown", labels, self.metrics_label())
    }
}

/// A request reaches the callback exactly as a `GET` of its path, and logout
/// exactly as a `POST` of the logout path; another method on either is answered
/// with a 405 that names the accepted one; and every other path is the
/// application's, whatever the method.
pub proof fn law_requests_reach_their_route<SD>(
    engine: LoginEngine<SD>,
    method: &str,
    path: &str,
    route: Route,
    refused: Option<ErrorReply>,
)
    requires
        call_ensures(LoginEngine::<SD>::try_handle_login_route, (&engine, method, path), route),
        call_ensures(LoginEngine::<SD>::route_refusal, (&engine, route), refused),
    ensures
        ({
            let on_callback = engine.config.callback_path@ == path@;
            let on_logout = !on_callback && engine.config.logout is Some
                && engine.config.logout->0.path@ == path@;
            &&& route is Callback <==> on_callback && method@ == "GET"@
            &&& route is Logout <==> on_logout && method@ == "POST"@
            &&& route is Application <==> !on_callback && !on_logout
            &&& refused is Some <==> (on_callback && method@ != "GET"@) || (on_logout && method@
                != "POST"@)
            &&& refused matches Some(e) ==> {
                &&& e@.status == 405
                &&& e@.extra == seq![
                    (
                        "allow"@,
                        if on_callback {
                            "GET"@
                        } else {
                            "POST"@
                        },
                    ),
                ]
            }
        }),
{
}

/// An engine keeps its configuration, and its store comes out with the
/// deployment's security and cap: no cookie outlives the cap, none lives longer
/// than the store allows, and the cap is frozen into new sessions.
pub proof fn law_engine_stamps_its_store<SD: SessionDriver>(
    config: LoginConfig,
    session_store: SD,
    metrics_name: Option<&str>,
    e: LoginEngine<SD>,
)
    requires
        call_ensures(LoginEngine::<SD>::new, (config, session_store, metrics_name), e),
    ensures
        e.config == config,
        e.metrics_name is Some <==> metrics_name is Some,
        metrics_name matches Some(n) ==> e.metrics_name->0@ == n@ && e.instance() == Some(n@),
        metrics_name is None ==> e.instance() is None,
        ({
            let before = session_store.cookie_settings();
            let after = e.session_store.cookie_settings();
            &&& after.name == before.name
            &&& after.path == before.path
            &&& after.secure == config.secure
            &&& after.metrics_name == opt_str(metrics_name)
            &&& config.session_lifetime is DelegatedToAuthorizationServer ==> {
                &&& after.max_age == before.max_age
                &&& e.session_store.frozen_cap() is None
            }
            &&& config.session_lifetime matches crate::config::SessionLifetime::Bounded(cap) ==> {
                &&& after.max_age.nanos <= cap.nanos
                &&& after.max_age.nanos <= before.max_age.nanos
                &&& after.max_age == cap || after.max_age == before.max_age
                &&& e.session_store.frozen_cap() == Some(cap)
            }
        }),
{
}

/// The counters of the engine: one name for each event, one label for how it
/// went, and the instance name last where there is one.
pub proof fn law_events_are_counted_by_name<SD>(
    engine: LoginEngine<SD>,
    started: LoginStartResult,
    start: Counter,
    completed: LoginCompleteResult,
    code: Option<&'static str>,
    complete: Counter,
)
    requires
        call_ensures(LoginEngine::<SD>::record_login_start, (&engine, started), start),
        call_ensures(
            LoginEngine::<SD>::record_login_complete,
            (&engine, completed, code),
            complete,
        ),
    ensures
        start@.name == "huskarl.login.start"@,
        start@.labels[0] == (
            "outcome"@,
            if started is Success {
                "ok"@
            } else {
                "error"@
            },
        ),
        complete@.name == "huskarl.login.complete"@,
        complete@.labels[0] == (
            "outcome"@,
            match completed {
                LoginCompleteResult::Success => "ok"@,
                LoginCompleteResult::AlreadyAuthenticated => "already_authenticated"@,
                LoginCompleteResult::AsDenied => "as_denied"@,
                LoginCompleteResult::InvalidRequest => "invalid_request"@,
                LoginCompleteResult::StateInvalid => "state_invalid"@,
                LoginCompleteResult::TokenExchangeFailed => "token_exchange_failed"@,
                LoginCompleteResult::SessionCreateFailed => "session_create_failed"@,
            },
        ),
        complete@.labels[1] == (
            "error"@,
            if code is Some {
                code->0@
            } else {
                "none"@
            },
        ),
        engine.instance() is None ==> start@.labels.len() == 1 && complete@.labels.len() == 2,
        engine.instance() matches Some(n) ==> {
            &&& start@.labels.len() == 2 && start@.labels[1] == ("name"@, n)
            &&& complete@.labels.len() == 3 && complete@.labels[2] == ("name"@, n)
        },
{
}

} // verus!
