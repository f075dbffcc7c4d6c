//! Framework-neutral HTTP responses.

use vstd::prelude::*;

use crate::session::{SessionError, SessionErrorKind};
use crate::text::texts;

verus! {

/// One response header.
pub struct Header {
    /// The header name, in lower case.
    pub name: &'static str,
    /// The header value.
    pub value: String,
}

impl View for Header {
    type V = (Seq<char>, Seq<char>);

    open spec fn view(&self) -> (Seq<char>, Seq<char>) {
        (self.name@, self.value@)
    }
}

impl Clone for Header {
    fn clone(&self) -> (h: Self)
        ensures
            h == *self,
    {
        Header { name: self.name, value: self.value.clone() }
    }
}

/// A header made of a copy of the given value.
pub fn header(name: &'static str, value: &str) -> (h: Header)
    ensures
        h@ == (name@, value@),
{
    Header { name, value: value.to_owned() }
}

/// The names and values of a list of headers.
pub open spec fn header_views(headers: Seq<Header>) -> Seq<(Seq<char>, Seq<char>)> {
    headers.map_values(|h: Header| h@)
}

/// A framework-neutral HTTP response produced by the login engine.
///
/// Framework adapters lower this into their native response type via
/// [`into_parts`](Self::into_parts) at the response boundary.
#[must_use]
pub enum LoginResponse {
    /// A redirect: `302 Found` from GET contexts (login start, callback),
    /// `303 See Other` after a POST (logout), which pins the follow-up request
    /// to GET. The boundary also emits `Cache-Control: no-store`, since these
    /// redirects carry session-bearing cookies.
    Redirect {
        /// The redirect status (`302` or `303`).
        status: u16,
        /// The `Location` to redirect to.
        location: String,
        /// `Set-Cookie` values to emit alongside the redirect. Every one must
        /// reach the response; prefer
        /// [`into_parts`](LoginResponse::into_parts), which cannot lose them.
        set_cookies: Vec<String>,
    },
    /// A response rendered with an explicit status, header set, and body.
    Rendered {
        /// HTTP status code.
        status: u16,
        /// Response headers (may repeat a name, e.g. multiple `Set-Cookie`).
        headers: Vec<Header>,
        /// Response body.
        body: Vec<u8>,
    },
}

/// The status, headers and body a response is served with.
#[verifier::ext_equal]
pub struct ResponseView {
    /// HTTP status code.
    pub status: u16,
    /// The header list.
    pub headers: Seq<(Seq<char>, Seq<char>)>,
    /// The body.
    pub body: Seq<u8>,
}

impl ResponseView {
    /// Whether no cache may keep the response.
    pub open spec fn is_no_store(self) -> bool {
        self.headers.contains(("cache-control"@, "no-store"@))
    }
}

/// The headers of a redirect: where to, not cacheable, and its cookies.
pub open spec fn redirect_headers(location: Seq<char>, set_cookies: Seq<Seq<char>>) -> Seq<
    (Seq<char>, Seq<char>),
> {
    seq![("location"@, location), ("cache-control"@, "no-store"@)] + set_cookies.map_values(
        |c: Seq<char>| ("set-cookie"@, c),
    )
}

impl View for LoginResponse {
    type V = ResponseView;

    open spec fn view(&self) -> ResponseView {
        match self {
            LoginResponse::Redirect { status, location, set_cookies } => ResponseView {
                status: *status,
                headers: redirect_headers(location@, texts(set_cookies@)),
                body: Seq::empty(),
            },
            LoginResponse::Rendered { status, headers, body } => ResponseView {
                status: *status,
                headers: header_views(headers@),
                body: body@,
            },
        }
    }
}

/// Every redirect is served as not cacheable.
pub proof fn law_redirects_are_not_cacheable(response: LoginResponse)
    requires
        response is Redirect,
    ensures
        response@.is_no_store(),
{
    let all = response@.headers;
    assert(all[1] == ("cache-control"@, "no-store"@));
}

fn append_cookies(headers: &mut Vec<Header>, set_cookies: &Vec<String>)
    ensures
        header_views(final(headers)@) == header_views(old(headers)@) + texts(
            set_cookies@,
        ).map_values(|c: Seq<char>| ("set-cookie"@, c)),
{
    let ghost before = header_views(headers@);
    let ghost all = texts(set_cookies@).map_values(|c: Seq<char>| ("set-cookie"@, c));
    let mut i: usize = 0;
    proof {
        assert(before + all.take(0) =~= before);
    }
    while i < set_cookies.len()
        invariant
            i <= set_cookies@.len() == all.len(),
            all == texts(set_cookies@).map_values(|c: Seq<char>| ("set-cookie"@, c)),
            header_views(headers@) == before + all.take(i as int),
        decreases set_cookies@.len() - i,
    {
        let ghost seen = header_views(headers@);
        let h = header("set-cookie", set_cookies[i].as_str());
        headers.push(h);
        proof {
            assert(header_views(headers@) =~= seen.push(h@));
            assert(all[i as int] == h@);
            assert(before + all.take(i + 1) =~= seen.push(h@));
        }
        i = i + 1;
    }
    proof {
        assert(all.take(all.len() as int) =~= all);
    }
}

fn redirect_header_list(location: &str, set_cookies: &Vec<String>) -> (headers: Vec<Header>)
    ensures
        header_views(headers@) == redirect_headers(location@, texts(set_cookies@)),
{
    let mut headers: Vec<Header> = Vec::new();
    headers.push(header("location", location));
    headers.push(header("cache-control", "no-store"));
    proof {
        assert(header_views(headers@) =~= seq![
            ("location"@, location@),
            ("cache-control"@, "no-store"@),
        ]);
    }
    append_cookies(&mut headers, set_cookies);
    headers
}

fn clone_headers(headers: &Vec<Header>) -> (r: Vec<Header>)
    ensures
        r@ == headers@,
{
    let mut r: Vec<Header> = Vec::new();
    let mut i: usize = 0;
    while i < headers.len()
        invariant
            i <= headers@.len(),
            r@ == headers@.take(i as int),
        decreases headers@.len() - i,
    {
        r.push(headers[i].clone());
        i = i + 1;
    }
    proof {
        assert(headers@.take(headers@.len() as int) =~= headers@);
    }
    r
}

impl LoginResponse {
    /// The status code this response is served with.
    #[must_use]
    pub fn status(&self) -> (s: u16)
        ensures
            s == self@.status,
    {
        match self {
            LoginResponse::Redirect { status, .. } => *status,
            LoginResponse::Rendered { status, .. } => *status,
        }
    }

    /// Lowers this response into concrete HTTP parts: status, full header list,
    /// and body (a [`Redirect`](Self::Redirect)'s headers are materialized
    /// here).
    #[must_use]
    pub fn into_parts(self) -> (parts: (u16, Vec<Header>, Vec<u8>))
        ensures
            self@ == (ResponseView {
                status: parts.0,
                headers: header_views(parts.1@),
                body: parts.2@,
            }),
    {
        match self {
            LoginResponse::Redirect { status, location, set_cookies } => {
                let headers = redirect_header_list(location.as_str(), &set_cookies);
                (status, headers, Vec::new())
            },
            LoginResponse::Rendered { status, headers, body } => (status, headers, body),
        }
    }

    /// The full header list this response is served with, materialized
    /// (cloning). For non-clone access at the boundary prefer
    /// [`into_parts`](Self::into_parts).
    #[must_use]
    pub fn headers(&self) -> (headers: Vec<Header>)
        ensures
            header_views(headers@) == self@.headers,
    {
        match self {
            LoginResponse::Redirect { location, set_cookies, .. } => redirect_header_list(
                location.as_str(),
                set_cookies,
            ),
            LoginResponse::Rendered { headers, .. } => clone_headers(headers),
        }
    }
}

// -- Error responses --

/// An error page as rendered for one error.
pub struct ErrorPageResponse {
    /// The media type of the body.
    pub content_type: &'static str,
    /// The body.
    pub body: Vec<u8>,
}

/// An error to be rendered through the configured error page.
pub struct ErrorReply {
    /// HTTP status code.
    pub status: u16,
    /// The message for the error page, which must escape it.
    pub message: String,
    /// Headers to send besides those every error response carries.
    pub extra: Vec<Header>,
}

/// The status, message and additional headers of an error.
#[verifier::ext_equal]
pub struct ErrorView {
    /// HTTP status code.
    pub status: u16,
    /// The message for the error page.
    pub message: Seq<char>,
    /// Additional headers.
    pub extra: Seq<(Seq<char>, Seq<char>)>,
}

impl View for ErrorReply {
    type V = ErrorView;

    open spec fn view(&self) -> ErrorView {
        ErrorView {
            status: self.status,
            message: self.message@,
            extra: header_views(self.extra@),
        }
    }
}

/// An error without additional headers.
pub open spec fn plain_error(status: u16, message: Seq<char>) -> ErrorView {
    ErrorView { status, message, extra: Seq::empty() }
}

impl ErrorReply {
    /// An error without additional headers.
    pub fn new(status: u16, message: &str) -> (e: Self)
        ensures
            e@ == plain_error(status, message@),
    {
        let e = ErrorReply { status, message: message.to_owned(), extra: Vec::new() };
        proof {
            assert(header_views(e.extra@) =~= Seq::<(Seq<char>, Seq<char>)>::empty());
        }
        e
    }

    /// This error with one more header.
    pub fn with_header(self, name: &'static str, value: &str) -> (e: Self)
        ensures
            e@ == (ErrorView { extra: self@.extra.push((name@, value@)), ..self@ }),
    {
        let mut extra = self.extra;
        let ghost before = header_views(extra@);
        extra.push(header(name, value));
        proof {
            assert(header_views(extra@) =~= before.push((name@, value@)));
        }
        ErrorReply { status: self.status, message: self.message, extra }
    }

    /// The response for this error, from the page rendered for its status and
    /// message. Never cacheable.
    pub fn build_error_response(self, page: ErrorPageResponse) -> (r: LoginResponse)
        ensures
            r@ == (ResponseView {
                status: self@.status,
                headers: seq![
                    ("content-type"@, page.content_type@),
                    ("cache-control"@, "no-store"@),
                ] + self@.extra,
                body: page.body@,
            }),
            r@.is_no_store(),
    {
        let mut headers: Vec<Header> = Vec::new();
        headers.push(header("content-type", page.content_type));
        headers.push(header("cache-control", "no-store"));
        let ghost first = header_views(headers@);
        let mut extra = self.extra;
        let ghost more = header_views(extra@);
        headers.append(&mut extra);
        proof {
            assert(first =~= seq![
                ("content-type"@, page.content_type@),
                ("cache-control"@, "no-store"@),
            ]);
            assert(header_views(headers@) =~= first + more);
            assert(header_views(headers@)[1] == ("cache-control"@, "no-store"@));
        }
        LoginResponse::Rendered { status: self.status, headers, body: page.body }
    }
}

/// The plain error page: the message as text.
pub struct DefaultErrorPage;

impl DefaultErrorPage {
    /// Renders the message as plain text.
    pub fn render(&self, message: &str) -> (page: ErrorPageResponse)
        ensures
            page.content_type@ == "text/plain; charset=utf-8"@,
            page.body@ == vstd::utf8::encode_utf8(message@),
    {
        ErrorPageResponse {
            content_type: "text/plain; charset=utf-8",
            body: vstd::slice::slice_to_vec(message.as_bytes()),
        }
    }
}

/// What the engine answers a request with.
pub enum Reply {
    /// A finished response.
    Response(LoginResponse),
    /// An error, to be rendered through the configured error page.
    Error(ErrorReply),
}

// -- Persist failures --

/// Decides how a framework adapter reacts when the post-response save of a
/// refreshed session fails.
///
/// The inner handler has already run (including side effects) by the time this
/// is called; a replacement response will cause well-behaved clients to retry.
pub trait PersistFailurePolicy {
    /// Decide what to do after the owed save failed. `Some(response)` replaces
    /// the handler's response; `None` lets it pass through.
    fn handle(&self, error: &SessionError) -> Option<LoginResponse>;
}

/// Default policy: fail closed when the refreshed-session save fails, replacing
/// the response to force a clean retry.
///
/// The replacement status is derived from the [`SessionErrorKind`]:
/// [`Conflict`](SessionErrorKind::Conflict) → `409`,
/// [`Crypto`](SessionErrorKind::Crypto)/[`Encoding`](SessionErrorKind::Encoding)/
/// [`Store`](SessionErrorKind::Store) → `500`, anything else → `503`.
pub struct DefaultPersistFailurePolicy;

/// The status a failed save is answered with.
pub open spec fn failure_status(kind: SessionErrorKind) -> u16 {
    match kind {
        SessionErrorKind::Conflict => 409,
        SessionErrorKind::Crypto | SessionErrorKind::Encoding | SessionErrorKind::Store => 500,
        _ => 503,
    }
}

impl PersistFailurePolicy for DefaultPersistFailurePolicy {
    fn handle(&self, error: &SessionError) -> (r: Option<LoginResponse>)
        ensures
            r matches Some(response) && response@ == (ResponseView {
                status: failure_status(error@.kind),
                headers: seq![("cache-control"@, "no-store"@)],
                body: Seq::empty(),
            }),
    {
        let status: u16 = match error.kind() {
            SessionErrorKind::Conflict => 409,
            SessionErrorKind::Crypto | SessionErrorKind::Encoding | SessionErrorKind::Store => 500,
            _ => 503,
        };
        let mut headers: Vec<Header> = Vec::new();
        headers.push(header("cache-control", "no-store"));
        proof {
            assert(header_views(headers@) =~= seq![("cache-control"@, "no-store"@)]);
        }
        Some(LoginResponse::Rendered { status, headers, body: Vec::new() })
    }
}

// -- Cookies owed to a response --

/// Session `Set-Cookie` headers owed to the client's response. Consume it with
/// [`into_headers`](Self::into_headers) and append every value to the outgoing
/// response.
#[must_use]
pub struct SetCookies {
    headers: Vec<String>,
}

impl View for SetCookies {
    type V = Seq<Seq<char>>;

    closed spec fn view(&self) -> Seq<Seq<char>> {
        texts(self.headers@)
    }
}

impl Default for SetCookies {
    fn default() -> (c: Self)
        ensures
            c@ == Seq::<Seq<char>>::empty(),
    {
        let c = SetCookies { headers: Vec::new() };
        proof {
            assert(texts(c.headers@) =~= Seq::<Seq<char>>::empty());
        }
        c
    }
}

impl SetCookies {
    /// Wraps headers owed to the response.
    pub fn new(headers: Vec<String>) -> (c: Self)
        ensures
            c@ == texts(headers@),
    {
        SetCookies { headers }
    }

    /// `true` when there is nothing to append.
    #[must_use]
    pub fn is_empty(&self) -> (r: bool)
        ensures
            r == (self@.len() == 0),
    {
        self.headers.len() == 0
    }

    /// Number of `Set-Cookie` headers owed.
    #[must_use]
    pub fn len(&self) -> (n: usize)
        ensures
            n == self@.len(),
    {
        self.headers.len()
    }

    /// Returns the `Set-Cookie` values to append to the response.
    #[must_use]
    pub fn into_headers(self) -> (headers: Vec<String>)
        ensures
            texts(headers@) == self@,
    {
        self.headers
    }

    /// Drops the cookies. Only correct when the response is already gone.
    pub fn discard(self) {
    }
}

// -- Laws of the responses --

/// A redirect is served with one `Location`, not cacheable, and with all of its
/// cookies in order; and it is lowered into exactly what it is served with.
pub proof fn law_redirect_is_served_whole(
    status: u16,
    location: String,
    set_cookies: Vec<String>,
    parts: (u16, Vec<Header>, Vec<u8>),
    listed: Vec<Header>,
    served: u16,
)
    requires
        call_ensures(
            LoginResponse::into_parts,
            (LoginResponse::Redirect { status, location, set_cookies },),
            parts,
        ),
        call_ensures(
            LoginResponse::headers,
            (&LoginResponse::Redirect { status, location, set_cookies },),
            listed,
        ),
        call_ensures(
            LoginResponse::status,
            (&LoginResponse::Redirect { status, location, set_cookies },),
            served,
        ),
    ensures
        parts.0 == status && served == status,
        parts.2@.len() == 0,
        parts.1@.len() == 2 + set_cookies@.len(),
        parts.1@[0]@ == ("location"@, location@),
        parts.1@[1]@ == ("cache-control"@, "no-store"@),
        forall|i: int|
            0 <= i < set_cookies@.len() ==> parts.1@[i + 2]@ == (
                "set-cookie"@,
                #[trigger] set_cookies@[i]@,
            ),
        header_views(listed@) == header_views(parts.1@),
{
    let all = header_views(parts.1@);
    let cookies = texts(set_cookies@);
    assert(all.len() == parts.1@.len());
    assert(all[0] == parts.1@[0]@);
    assert(all[1] == parts.1@[1]@);
    assert forall|i: int| 0 <= i < set_cookies@.len() implies parts.1@[i + 2]@ == (
        "set-cookie"@,
        #[trigger] set_cookies@[i]@,
    ) by {
        assert(all[i + 2] == parts.1@[i + 2]@);
        assert(cookies[i] == set_cookies@[i]@);
    }
}

/// An error is served with its status, its page and its own headers behind the
/// two that every error carries.
pub proof fn law_error_is_served_whole(
    error: ErrorReply,
    page: ErrorPageResponse,
    r: LoginResponse,
)
    requires
        call_ensures(ErrorReply::build_error_response, (error, page), r),
    ensures
        r@.status == error.status,
        r@.body == page.body@,
        r@.headers.len() == 2 + error.extra@.len(),
        r@.headers[0] == ("content-type"@, page.content_type@),
        r@.headers[1] == ("cache-control"@, "no-store"@),
        forall|i: int|
            0 <= i < error.extra@.len() ==> r@.headers[i + 2] == #[trigger] error.extra@[i]@,
{
    assert(header_views(error.extra@).len() == error.extra@.len());
    assert forall|i: int| 0 <= i < error.extra@.len() implies r@.headers[i + 2]
        == #[trigger] error.extra@[i]@ by {
        assert(header_views(error.extra@)[i] == error.extra@[i]@);
    }
}

/// A save that failed is never passed over: the answer is replaced by one that
/// tells a conflict, a fault of this side, and anything that may pass apart,
/// and that no cache keeps.
pub proof fn law_failed_save_fails_closed(error: SessionError, r: Option<LoginResponse>)
    requires
        call_ensures(
            DefaultPersistFailurePolicy::handle,
            (&DefaultPersistFailurePolicy, &error),
            r,
        ),
    ensures
        r is Some,
        error@.kind is Conflict ==> r->0@.status == 409,
        error@.kind is Crypto || error@.kind is Encoding || error@.kind is Store
            ==> r->0@.status == 500,
        error@.kind is Unavailable || error@.kind is Gone ==> r->0@.status == 503,
        r->0@.headers == seq![("cache-control"@, "no-store"@)],
        r->0@.body.len() == 0,
{
}

/// The cookies owed to a response are handed out as they were handed in.
pub proof fn law_owed_cookies_are_handed_out(
    headers: Vec<String>,
    owed: SetCookies,
    out: Vec<String>,
    count: usize,
    empty: bool,
)
    requires
        call_ensures(SetCookies::new, (headers,), owed),
        call_ensures(SetCookies::into_headers, (owed,), out),
        call_ensures(SetCookies::len, (&owed,), count),
        call_ensures(SetCookies::is_empty, (&owed,), empty),
    ensures
        texts(out@) == texts(headers@),
        count == headers@.len(),
        empty <==> headers@.len() == 0,
{
}

/// The plain page shows the message as it is, as plain text.
pub proof fn law_plain_page_shows_the_message(message: &str, page: ErrorPageResponse)
    requires
        call_ensures(DefaultErrorPage::render, (&DefaultErrorPage, message), page),
    ensures
        page.content_type@ == "text/plain; charset=utf-8"@,
        page.body@ == vstd::utf8::encode_utf8(message@),
{
}

} // verus!
