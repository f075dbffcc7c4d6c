//! Asking the client to authenticate: starting the OAuth flow.

use http::HeaderMap;
use vstd::prelude::*;

use crate::codec::{base64_len, base64url, base64url_bytes, encode_base64url};
use crate::cookie::{
    cookie_attrs, lemma_attrs_are_header_text, lemma_decimal_is_header_text,
    lemma_header_text_joins, lemma_set_cookie_is_header_text, lemma_url_safe_is_header_text,
    login_state_cookie_name, set_cookie, set_cookie_text, valid_state,
};
use crate::engine::base::{login_start_counter, LoginEngine};
use crate::engine::callback::{flow_attrs, flow_cookie};
use crate::engine::request::{is_navigation, is_navigation_request};
use crate::engine::response::{
    plain_error, redirect_headers, ErrorReply, ErrorView, LoginResponse, ResponseView,
};
use crate::headers::{is_header_text, is_header_value};
use crate::metrics::{Counter, LoginStartResult};
use crate::session::{error_caused_by, SessionError, SessionErrorKind};
use crate::text::{decimal, opt_str, texts, to_decimal};
use crate::url::{base_url_as_string, browser_url, is_on_origin, original_url, uri_origin};

verus! {

/// How a request that needs authentication is answered.
pub enum LoginStart {
    /// An API request is refused.
    Refuse(ErrorReply),
    /// A browser navigation starts the flow; it returns to this URL.
    Start {
        /// The URL the user wanted.
        original_url: String,
    },
}

/// The URL a started flow returns to: the browser-facing URL of the request,
/// or the base URL if there is none.
pub open spec fn return_url(
    config: crate::config::LoginConfig,
    path: Seq<char>,
    query: Option<Seq<char>>,
) -> Seq<char> {
    let url = browser_url(config.base_url@, config.stripped_prefix(), path, query);
    if uri_origin(url) is Some {
        url
    } else {
        config.base_url@.text
    }
}

/// The attributes of a login-state cookie with its lifetime, in whole seconds.
pub open spec fn state_cookie_attrs(config: crate::config::LoginConfig) -> Seq<char> {
    flow_attrs(config) + "; Max-Age="@ + decimal(
        (config.login_state_ttl.nanos / 1_000_000_000) as nat,
    )
}

impl<SD> LoginEngine<SD> {
    /// How a request that needs authentication is answered: a browser
    /// navigation is sent to the authorization server (its URL sealed in a
    /// cookie for return), an API/XHR request gets `401 Unauthorized`.
    pub fn redirect_to_login(&self, headers: &HeaderMap, path: &str, query: Option<&str>) -> (r:
        LoginStart)
        ensures
            if is_navigation(*headers) {
                &&& r is Start
                &&& r->original_url@ == return_url(self.config, path@, opt_str(query))
                &&& is_on_origin(r->original_url@, self.config.base_url@) || r->original_url@
                    == self.config.base_url@.text
            } else {
                &&& r is Refuse
                &&& r->Refuse_0@ == (ErrorView {
                    status: 401,
                    message: "authentication required"@,
                    extra: seq![("www-authenticate"@, "Cookie"@)],
                })
            },
    {
        if !is_navigation_request(headers) {
            let e = ErrorReply::new(401, "authentication required").with_header(
                "www-authenticate",
                "Cookie",
            );
            proof {
                assert(e@.extra =~= seq![("www-authenticate"@, "Cookie"@)]);
            }
            return LoginStart::Refuse(e);
        }
        let url = match original_url(&self.config, path, query) {
            Some(url) => url,
            None => base_url_as_string(&self.config),
        };
        LoginStart::Start { original_url: url }
    }

    /// Turns a sealed login state into the `Set-Cookie` value that keeps it
    /// until the callback. Its parts are header-safe by construction.
    ///
    /// # Errors
    ///
    /// An [`Encoding`](SessionErrorKind::Encoding) error where the value could
    /// not stand in a header.
    pub fn build_login_state_cookie(&self, state: &str, bundle: &[u8]) -> (r: Result<
        String,
        SessionError,
    >)
        requires
            valid_state(state@),
            base64_len(bundle@.len()) <= isize::MAX,
        ensures
            base64url_bytes(base64url(bundle@)) == Some(bundle@),
            r is Ok,
            r->Ok_0@ == set_cookie(
                flow_cookie(self.config, state@),
                base64url(bundle@),
                state_cookie_attrs(self.config),
            ),
            is_header_text(r->Ok_0@),
    {
        let cookie_name = login_state_cookie_name(
            state,
            self.config.secure,
            self.config.browser_callback_path.as_str(),
            self.config.login_cookie_prefix.as_str(),
        );
        let cookie_value = encode_base64url(bundle);
        let mut attrs = cookie_attrs(
            self.config.secure,
            self.config.browser_callback_path.as_str(),
        );
        attrs.append("; Max-Age=");
        attrs.append(to_decimal(self.config.login_state_ttl.as_secs()).as_str());
        let value = set_cookie_text(cookie_name.as_str(), cookie_value.as_str(), attrs.as_str());
        proof {
            reveal_strlit("; Max-Age=");
            let secs = (self.config.login_state_ttl.nanos / 1_000_000_000) as nat;
            lemma_attrs_are_header_text(self.config.secure, self.config.browser_callback_path@);
            lemma_decimal_is_header_text(secs);
            lemma_header_text_joins(flow_attrs(self.config), "; Max-Age="@);
            lemma_header_text_joins(flow_attrs(self.config) + "; Max-Age="@, decimal(secs));
            crate::engine::callback::lemma_flow_cookie_is_header_text(self.config, state@);
            lemma_url_safe_is_header_text(cookie_value@);
            lemma_set_cookie_is_header_text(cookie_name@, cookie_value@, attrs@);
        }
        if is_header_value(value.as_str()) {
            Ok(value)
        } else {
            Err(SessionError::new(SessionErrorKind::Encoding, "failed to parse header value"))
        }
    }

    /// The redirect to the authorization server, setting the login-state
    /// cookie, and the counter for it.
    ///
    /// # Errors
    ///
    /// An [`Encoding`](SessionErrorKind::Encoding) error if the authorization
    /// URL may not stand in a header.
    pub fn redirect_to_as(&self, authorization_url: &str, cookie: String) -> (r: Result<
        (LoginResponse, Counter),
        SessionError,
    >)
        ensures
            match r {
                Ok((response, counter)) => {
                    &&& is_header_text(authorization_url@)
                    &&& response@ == (ResponseView {
                        status: 302,
                        headers: redirect_headers(authorization_url@, seq![cookie@]),
                        body: Seq::empty(),
                    })
                    &&& counter@ == login_start_counter(LoginStartResult::Success, self.instance())
                },
                Err(e) => {
                    &&& !is_header_text(authorization_url@)
                    &&& e@ == error_caused_by(
                        SessionErrorKind::Encoding,
                        "failed to parse header value"@,
                    )
                },
            },
    {
        if !is_header_value(authorization_url) {
            return Err(
                SessionError::new(SessionErrorKind::Encoding, "failed to parse header value"),
            );
        }
        let mut set_cookies: Vec<String> = Vec::new();
        set_cookies.push(cookie);
        proof {
            assert(texts(set_cookies@) =~= seq![cookie@]);
        }
        let response = LoginResponse::Redirect {
            status: 302,
            location: authorization_url.to_owned(),
            set_cookies,
        };
        Ok((response, self.record_login_start(LoginStartResult::Success)))
    }

    /// Answers a login that could not be started.
    pub fn start_failed(&self) -> (r: (ErrorReply, Counter))
        ensures
            r.0@ == plain_error(500, "failed to start login"@),
            r.1@ == login_start_counter(LoginStartResult::Error, self.instance()),
    {
        (
            ErrorReply::new(500, "failed to start login"),
            self.record_login_start(LoginStartResult::Error),
        )
    }
}

/// A navigation starts a login that returns to the very URL the browser shows,
/// or to the base URL where that is no URI; any other request is refused with a
/// 401 that asks for a cookie.
pub proof fn law_navigation_starts_a_login<SD>(
    engine: LoginEngine<SD>,
    headers: HeaderMap,
    path: &str,
    query: Option<&str>,
    navigates: bool,
    wanted: Option<String>,
    r: LoginStart,
)
    requires
        call_ensures(is_navigation_request, (&headers,), navigates),
        call_ensures(original_url, (&engine.config, path, query), wanted),
        call_ensures(LoginEngine::<SD>::redirect_to_login, (&engine, &headers, path, query), r),
    ensures
        r is Start <==> navigates,
        r matches LoginStart::Start { original_url } ==> {
            &&& wanted matches Some(url) ==> original_url@ == url@
            &&& wanted is None ==> original_url@ == engine.config.base_url@.text
        },
        r matches LoginStart::Refuse(e) ==> {
            &&& e@.status == 401
            &&& e@.extra == seq![("www-authenticate"@, "Cookie"@)]
        },
{
}

/// The login-state cookie holds the sealed login state under the name of its
/// flow, for the time a login may take, guarded like every cookie.
pub proof fn law_login_state_is_kept_in_its_cookie<SD>(
    engine: LoginEngine<SD>,
    state: &str,
    bundle: &[u8],
    name: String,
    attrs: String,
    r: Result<String, SessionError>,
)
    requires
        valid_state(state@),
        base64_len(bundle@.len()) <= isize::MAX,
        call_ensures(
            LoginEngine::<SD>::build_login_state_cookie,
            (&engine, state, bundle),
            r,
        ),
        exists|path: &str, prefix: &str| #[trigger]
            call_ensures(
                login_state_cookie_name,
                (state, engine.config.secure, path, prefix),
                name,
            ) && path@ == engine.config.browser_callback_path@ && prefix@
                == engine.config.login_cookie_prefix@,
        exists|path: &str| #[trigger]
            call_ensures(cookie_attrs, (engine.config.secure, path), attrs) && path@
                == engine.config.browser_callback_path@,
    ensures
        r is Ok,
        r->Ok_0@ == name@ + "="@ + base64url(bundle@) + "; "@ + attrs@ + "; Max-Age="@ + decimal(
            (engine.config.login_state_ttl.nanos / 1_000_000_000) as nat,
        ),
{
    assert(r->Ok_0@ =~= name@ + "="@ + base64url(bundle@) + "; "@ + attrs@ + "; Max-Age="@
        + decimal((engine.config.login_state_ttl.nanos / 1_000_000_000) as nat));
}

/// A started login redirects to the authorization server and sets its cookie,
/// exactly when that URL may stand in a header.
pub proof fn law_start_redirects_to_the_server<SD>(
    engine: LoginEngine<SD>,
    authorization_url: &str,
    cookie: String,
    r: Result<(LoginResponse, Counter), SessionError>,
)
    requires
        call_ensures(
            LoginEngine::<SD>::redirect_to_as,
            (&engine, authorization_url, cookie),
            r,
        ),
    ensures
        r is Ok <==> is_header_text(authorization_url@),
        r matches Err(e) ==> e@.kind is Encoding,
        r matches Ok((response, counter)) ==> {
            &&& response@.status == 302
            &&& response@.headers.len() == 3
            &&& response@.headers[0] == ("location"@, authorization_url@)
            &&& response@.headers[1] == ("cache-control"@, "no-store"@)
            &&& response@.headers[2] == ("set-cookie"@, cookie@)
            &&& crate::engine::load::counts_once(
                counter@,
                "huskarl.login.start"@,
                ("outcome"@, "ok"@),
                engine.instance(),
            )
        },
{
}

/// A login ends where it began: for every navigation whose browser-facing URL is
/// a URI that may stand in a header, the redirect after its callback goes to
/// that URL, with its path and its query, whatever the callback carries.
pub proof fn law_login_returns_to_where_it_began<SD>(
    engine: LoginEngine<SD>,
    headers: HeaderMap,
    path: &str,
    query: Option<&str>,
    navigates: bool,
    start: LoginStart,
    stem: Seq<char>,
    rest: Seq<char>,
    resumed: &str,
    callback_headers: HeaderMap,
    session_cookies: Vec<String>,
    r: (LoginResponse, Counter),
)
    requires
        call_ensures(is_navigation_request, (&headers,), navigates),
        navigates,
        call_ensures(LoginEngine::<SD>::redirect_to_login, (&engine, &headers, path, query), start),
        crate::config::is_stem(stem, engine.config.base_url@.path),
        crate::config::is_inner(rest, path@, engine.config.stripped_prefix()),
        uri_origin(
            crate::url::assembled_url(engine.config.base_url@, stem, rest, opt_str(query)),
        ) is Some,
        is_header_text(
            crate::url::assembled_url(engine.config.base_url@, stem, rest, opt_str(query)),
        ),
        start matches LoginStart::Start { original_url } ==> resumed@ == original_url@,
        call_ensures(
            LoginEngine::<SD>::build_callback_redirect,
            (&engine, resumed, &callback_headers, session_cookies),
            r,
        ),
    ensures
        r.0@.status == 302,
        r.0@.headers.len() > 0,
        r.0@.headers[0] == (
            "location"@,
            crate::url::assembled_url(engine.config.base_url@, stem, rest, opt_str(query)),
        ),
{
    crate::config::lemma_stripped_is_inner(rest, path@, engine.config.stripped_prefix());
    crate::config::lemma_joined_behind_stem(engine.config.base_url@.path, stem, rest);
    assert(browser_url(
        engine.config.base_url@,
        engine.config.stripped_prefix(),
        path@,
        opt_str(query),
    ) =~= crate::url::assembled_url(engine.config.base_url@, stem, rest, opt_str(query)));
}

/// A login that cannot be started is a fault of this side, and counted as one.
pub proof fn law_failed_start_is_a_fault<SD>(engine: LoginEngine<SD>, r: (ErrorReply, Counter))
    requires
        call_ensures(LoginEngine::<SD>::start_failed, (&engine,), r),
    ensures
        r.0@.status == 500,
        r.0@.extra.len() == 0,
        crate::engine::load::counts_once(
            r.1@,
            "huskarl.login.start"@,
            ("outcome"@, "error"@),
            engine.instance(),
        ),
{
}

} // verus!
