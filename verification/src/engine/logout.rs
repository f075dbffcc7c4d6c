//! Logout: clearing the local session and redirecting to either the OIDC
//! end-session endpoint or the configured post-logout target.

use http::HeaderMap;
use vstd::prelude::*;

use crate::codec::form_text;
use crate::config::{LoginConfig, LogoutConfig};
use crate::engine::base::LoginEngine;
use crate::engine::request::{is_cross_site, is_cross_site_request};
use crate::engine::response::{
    plain_error, redirect_headers, ErrorReply, LoginResponse, ResponseView,
};
use crate::headers::{is_header_text, is_header_value};
use crate::text::{opt_str, texts};
use crate::url::{
    build_end_session_url, default_post_logout_redirect, end_session_pairs, with_query,
};

verus! {

/// Where the user ends up after the local session is cleared, on this
/// application's side: the configured URI exactly as supplied, else the base
/// URL.
pub open spec fn post_logout_target(config: LoginConfig, logout: LogoutConfig) -> Seq<char> {
    match logout.post_logout_redirect_uri {
        Some(uri) => uri@,
        None => config.base_url@.text,
    }
}

/// Where logout redirects to: the end-session endpoint, told who asks and
/// where to return to, where there is one; else the post-logout target.
pub open spec fn logout_target(
    config: LoginConfig,
    logout: LogoutConfig,
    id_token_hint: Option<Seq<char>>,
    client_id: Seq<char>,
) -> Seq<char> {
    let target = post_logout_target(config, logout);
    match logout.end_session_endpoint {
        None => target,
        Some(endpoint) => match form_text(
            end_session_pairs(id_token_hint, Some(client_id), Some(target)),
        ) {
            Some(query) => with_query(endpoint@, query),
            None => target,
        },
    }
}

impl<SD> LoginEngine<SD> {
    /// Refuses a logout request that comes from another site, and accepts any
    /// other. Session cookies are `SameSite=Lax`, which already keeps them off
    /// cross-site POSTs; this check is defense in depth.
    pub fn handle_logout(&self, headers: &HeaderMap) -> (refused: Option<ErrorReply>)
        ensures
            match refused {
                Some(e) => is_cross_site(*headers) && e@ == plain_error(
                    403,
                    "cross-site logout request rejected"@,
                ),
                None => !is_cross_site(*headers),
            },
    {
        if is_cross_site_request(headers) {
            Some(ErrorReply::new(403, "cross-site logout request rejected"))
        } else {
            None
        }
    }

    /// Returns the URL to redirect the user to after the local session is
    /// cleared: the server's end-session endpoint (with `id_token_hint` when
    /// the session has one, `client_id` always, and
    /// `post_logout_redirect_uri`), falling back to the plain post-logout
    /// target if the URL can't be built.
    pub fn logout_redirect_target(
        &self,
        logout: &LogoutConfig,
        id_token_hint: Option<&str>,
        client_id: &str,
    ) -> (target: String)
        ensures
            target@ == logout_target(self.config, *logout, opt_str(id_token_hint), client_id@),
    {
        let post_logout = match &logout.post_logout_redirect_uri {
            Some(uri) => uri.clone(),
            None => default_post_logout_redirect(&self.config),
        };
        match &logout.end_session_endpoint {
            None => post_logout,
            Some(endpoint) => match build_end_session_url(
                endpoint,
                id_token_hint,
                Some(client_id),
                Some(post_logout.as_str()),
            ) {
                Some(url) => url,
                None => post_logout,
            },
        }
    }

    /// The location of the logout redirect.
    ///
    /// # Errors
    ///
    /// The error to answer with if the target may not stand in a header; the
    /// session is then left alone.
    pub fn logout_location(
        &self,
        logout: &LogoutConfig,
        id_token_hint: Option<&str>,
        client_id: &str,
    ) -> (r: Result<String, ErrorReply>)
        ensures
            ({
                let target = logout_target(
                    self.config,
                    *logout,
                    opt_str(id_token_hint),
                    client_id@,
                );
                match r {
                    Ok(location) => is_header_text(target) && location@ == target,
                    Err(e) => !is_header_text(target) && e@ == plain_error(
                        500,
                        "failed to build logout redirect"@,
                    ),
                }
            }),
    {
        let target = self.logout_redirect_target(logout, id_token_hint, client_id);
        if is_header_value(target.as_str()) {
            Ok(target)
        } else {
            Err(ErrorReply::new(500, "failed to build logout redirect"))
        }
    }

    /// The logout redirect: `303 See Other`, with the clears of the deleted
    /// session. `deleted` is `None` when there was no session, or its delete
    /// failed: logout redirects all the same.
    pub fn logout_redirect(&self, location: String, deleted: Option<Vec<String>>) -> (r:
        LoginResponse)
        ensures
            r@ == (ResponseView {
                status: 303,
                headers: redirect_headers(
                    location@,
                    match deleted {
                        Some(cookies) => texts(cookies@),
                        None => Seq::empty(),
                    },
                ),
                body: Seq::empty(),
            }),
    {
        let set_cookies = match deleted {
            Some(cookies) => cookies,
            None => {
                let none: Vec<String> = Vec::new();
                proof {
                    assert(texts(none@) =~= Seq::<Seq<char>>::empty());
                }
                none
            },
        };
        LoginResponse::Redirect { status: 303, location, set_cookies }
    }
}

/// A logout is refused exactly when the browser marks it as cross-site.
pub proof fn law_only_cross_site_logouts_are_refused<SD>(
    engine: LoginEngine<SD>,
    headers: HeaderMap,
    cross_site: bool,
    refused: Option<ErrorReply>,
)
    requires
        call_ensures(is_cross_site_request, (&headers,), cross_site),
        call_ensures(LoginEngine::<SD>::handle_logout, (&engine, &headers), refused),
    ensures
        refused is Some <==> cross_site,
        refused matches Some(e) ==> e@.status == 403 && e@.extra.len() == 0,
{
}

/// Logout goes to the end-session endpoint where there is one, telling it who
/// asks, for which user, and where to return to; otherwise, and where that
/// cannot be put into a URL, straight to where the user is to return to: the
/// configured URI as it is, or the base URL.
pub proof fn law_logout_goes_through_the_server<SD>(
    engine: LoginEngine<SD>,
    logout: LogoutConfig,
    id_token_hint: Option<&str>,
    client_id: &str,
    back: &str,
    through: Option<String>,
    target: String,
    location: Result<String, ErrorReply>,
)
    requires
        call_ensures(
            LoginEngine::<SD>::logout_redirect_target,
            (&engine, &logout, id_token_hint, client_id),
            target,
        ),
        call_ensures(
            LoginEngine::<SD>::logout_location,
            (&engine, &logout, id_token_hint, client_id),
            location,
        ),
        back@ == (if logout.post_logout_redirect_uri is Some {
            logout.post_logout_redirect_uri->0@
        } else {
            engine.config.base_url@.text
        }),
        logout.end_session_endpoint matches Some(endpoint) ==> call_ensures(
            build_end_session_url,
            (&endpoint, id_token_hint, Some(client_id), Some(back)),
            through,
        ),
    ensures
        logout.end_session_endpoint is None ==> target@ == back@,
        logout.end_session_endpoint is Some ==> {
            &&& through matches Some(url) ==> target@ == url@
            &&& through is None ==> target@ == back@
        },
        location is Ok <==> is_header_text(target@),
        location matches Ok(l) ==> l@ == target@,
        location matches Err(e) ==> e@.status == 500,
{
}

/// The logout answer is a 303 to its location, with every cookie of the delete
/// and no other.
pub proof fn law_logout_clears_what_was_deleted<SD>(
    engine: LoginEngine<SD>,
    location: String,
    deleted: Option<Vec<String>>,
    r: LoginResponse,
)
    requires
        call_ensures(LoginEngine::<SD>::logout_redirect, (&engine, location, deleted), r),
    ensures
        r@.status == 303,
        r@.headers[0] == ("location"@, location@),
        r@.headers[1] == ("cache-control"@, "no-store"@),
        deleted is None ==> r@.headers.len() == 2,
        deleted matches Some(cookies) ==> {
            &&& r@.headers.len() == 2 + cookies@.len()
            &&& forall|i: int|
                0 <= i < cookies@.len() ==> r@.headers[i + 2] == (
                    "set-cookie"@,
                    #[trigger] cookies@[i]@,
                )
        },
{
    if let Some(cookies) = deleted {
        assert forall|i: int| 0 <= i < cookies@.len() implies r@.headers[i + 2] == (
            "set-cookie"@,
            #[trigger] cookies@[i]@,
        ) by {
            assert(texts(cookies@)[i] == cookies@[i]@);
        }
    }
}

} // verus!
