//! URLs: endpoint validation, the browser-facing URL of a request, and the
//! end-session URL.

use vstd::prelude::*;

use crate::codec::{encode_form, form_text, pair_texts};
use crate::config::{join_base_path, joined_path, strip_route_prefix, stripped, LoginConfig};
use crate::text::{opt_str, opt_text, same_text};

verus! {

/// What the `http` crate reads in an absolute or relative URI: the scheme and
/// the authority it has, if any.
pub uninterp spec fn uri_origin(text: Seq<char>) -> Option<
    (Option<Seq<char>>, Option<Seq<char>>),
>;

/// `http::Uri`'s `FromStr`, then `scheme_str` and `authority`: the scheme and
/// the authority of a URI, or `None` where the text is no URI.
#[verifier::external_body]
pub(crate) fn parse_uri_origin(text: &str) -> (parts: Option<(Option<String>, Option<String>)>)
    ensures
        match parts {
            Some((scheme, authority)) => uri_origin(text@) == Some(
                (opt_text(scheme), opt_text(authority)),
            ),
            None => uri_origin(text@) is None,
        },
{
    let uri: http::Uri = text.parse().ok()?;
    let authority = uri.authority().map(|a| a.as_str().to_owned());
    Some((uri.scheme_str().map(str::to_owned), authority))
}

/// The parts of an endpoint URL.
#[verifier::ext_equal]
pub struct EndpointView {
    /// The URL as text, normalized.
    pub text: Seq<char>,
    /// The scheme.
    pub scheme: Seq<char>,
    /// The authority.
    pub authority: Seq<char>,
    /// The path; `/` when the URL names none.
    pub path: Seq<char>,
    /// The query, if there is one.
    pub query: Option<Seq<char>>,
}

/// What holds of every endpoint URL: its scheme is `http` or `https`, and its
/// path begins with `/`.
pub open spec fn is_endpoint(url: EndpointView) -> bool {
    &&& url.scheme == "http"@ || url.scheme == "https"@
    &&& url.path.len() > 0 && url.path[0] == '/'
}

/// The text, scheme, authority, path and query of an endpoint URL, if `text`
/// is one: an absolute `http` or `https` URL without credentials or fragment.
pub uninterp spec fn endpoint_parts(text: Seq<char>) -> Option<
    (Seq<char>, Seq<char>, Seq<char>, Seq<char>, Option<Seq<char>>),
>;

/// `huskarl`'s `EndpointUrl` parse: the URL as text, its scheme, authority,
/// path and query, or `None` where the text is no endpoint URL. An endpoint
/// URL always has a scheme, `http` or `https`, and an authority, and its path
/// begins with `/`.
#[verifier::external_body]
pub(crate) fn parse_endpoint(text: &str) -> (parts: Option<
    (String, String, String, String, Option<String>),
>)
    ensures
        match parts {
            Some((whole, scheme, authority, path, query)) => {
                &&& endpoint_parts(text@) == Some(
                    (whole@, scheme@, authority@, path@, opt_text(query)),
                )
                &&& scheme@ == "http"@ || scheme@ == "https"@
                &&& path@.len() > 0 && path@[0] == '/'
            },
            None => endpoint_parts(text@) is None,
        },
{
    let url: huskarl::core::EndpointUrl = text.parse().ok()?;
    let uri = url.as_uri();
    let scheme = uri.scheme_str()?.to_owned();
    let authority = uri.authority()?.as_str().to_owned();
    let query = uri.query().map(str::to_owned);
    Some((uri.to_string(), scheme, authority, uri.path().to_owned(), query))
}

/// A text that is no endpoint URL.
#[derive(Debug)]
pub struct InvalidEndpointUrl {
    /// The offending text.
    pub url: String,
}

/// An absolute `http` or `https` URL without credentials or fragment.
#[derive(Debug)]
pub struct EndpointUrl {
    text: String,
    scheme: String,
    authority: String,
    path: String,
    query: Option<String>,
}

impl View for EndpointUrl {
    type V = EndpointView;

    closed spec fn view(&self) -> EndpointView {
        EndpointView {
            text: self.text@,
            scheme: self.scheme@,
            authority: self.authority@,
            path: self.path@,
            query: opt_text(self.query),
        }
    }
}

impl EndpointUrl {
    #[verifier::type_invariant]
    spec fn well_formed(self) -> bool {
        is_endpoint(self@)
    }

    /// Parses an endpoint URL.
    ///
    /// # Errors
    ///
    /// Returns [`InvalidEndpointUrl`] if `text` is no absolute `http` or
    /// `https` URL, or holds credentials or a fragment.
    pub fn new(text: &str) -> (r: Result<Self, InvalidEndpointUrl>)
        ensures
            match r {
                Ok(url) => {
                    &&& endpoint_parts(text@) == Some(
                        (url@.text, url@.scheme, url@.authority, url@.path, url@.query),
                    )
                    &&& is_endpoint(url@)
                },
                Err(e) => endpoint_parts(text@) is None && e.url@ == text@,
            },
    {
        match parse_endpoint(text) {
            Some((whole, scheme, authority, path, query)) => Ok(
                EndpointUrl { text: whole, scheme, authority, path, query },
            ),
            None => Err(InvalidEndpointUrl { url: text.to_owned() }),
        }
    }

    /// The URL as text.
    pub fn as_str(&self) -> (s: &str)
        ensures
            s@ == self@.text,
    {
        self.text.as_str()
    }

    /// The scheme: `http` or `https`.
    pub fn scheme(&self) -> (s: &str)
        ensures
            s@ == self@.scheme,
            s@ == "http"@ || s@ == "https"@,
    {
        proof {
            use_type_invariant(self);
        }
        self.scheme.as_str()
    }

    /// The authority.
    pub fn authority(&self) -> (s: &str)
        ensures
            s@ == self@.authority,
    {
        self.authority.as_str()
    }

    /// The path, which begins with `/`.
    pub fn path(&self) -> (s: &str)
        ensures
            s@ == self@.path,
            is_endpoint(self@),
    {
        proof {
            use_type_invariant(self);
        }
        self.path.as_str()
    }

    /// Whether the URL has a query.
    pub fn has_query(&self) -> (r: bool)
        ensures
            r == (self@.query is Some),
    {
        self.query.is_some()
    }

    /// Whether the scheme is `https`.
    pub fn is_https(&self) -> (r: bool)
        ensures
            r == (self@.scheme == "https"@),
    {
        same_text(self.scheme.as_str(), "https")
    }
}

impl std::str::FromStr for EndpointUrl {
    type Err = InvalidEndpointUrl;

    fn from_str(text: &str) -> (r: Result<Self, InvalidEndpointUrl>)
        ensures
            match r {
                Ok(url) => {
                    &&& endpoint_parts(text@) == Some(
                        (url@.text, url@.scheme, url@.authority, url@.path, url@.query),
                    )
                    &&& is_endpoint(url@)
                },
                Err(e) => endpoint_parts(text@) is None && e.url@ == text@,
            },
    {
        EndpointUrl::new(text)
    }
}

// -- URLs of a deployment --

/// The base URL as text.
pub fn base_url_as_string(config: &LoginConfig) -> (s: String)
    ensures
        s@ == config.base_url@.text,
{
    config.base_url.as_str().to_owned()
}

/// Where to redirect to after logout by default: the base URL.
pub fn default_post_logout_redirect(config: &LoginConfig) -> (s: String)
    ensures
        s@ == config.base_url@.text,
{
    base_url_as_string(config)
}

/// The scheme and authority of a URL, as its text begins.
pub open spec fn origin(url: EndpointView) -> Seq<char> {
    url.scheme + "://"@ + url.authority
}

/// The browser-facing URL of a request: the origin of the base URL, its path
/// joined with the request path less the prefix a front proxy adds, and the
/// query of the request.
pub open spec fn browser_url(
    base_url: EndpointView,
    strip_prefix: Option<Seq<char>>,
    path: Seq<char>,
    query: Option<Seq<char>>,
) -> Seq<char> {
    let url = origin(base_url) + joined_path(base_url.path, stripped(path, strip_prefix));
    match query {
        Some(q) => url + "?"@ + q,
        None => url,
    }
}

/// Whether a URL stays on the origin of another: right behind the origin comes
/// a path.
pub open spec fn is_on_origin(text: Seq<char>, url: EndpointView) -> bool {
    (origin(url) + "/"@).is_prefix_of(text)
}

proof fn lemma_browser_url_stays_on_origin(
    base_url: EndpointView,
    strip_prefix: Option<Seq<char>>,
    path: Seq<char>,
    query: Option<Seq<char>>,
)
    requires
        is_endpoint(base_url),
    ensures
        is_on_origin(browser_url(base_url, strip_prefix, path, query), base_url),
{
    reveal_strlit("/");
    let segment = stripped(path, strip_prefix);
    let whole = joined_path(base_url.path, segment);
    lemma_trim_keeps_start(base_url.path, '/');
    assert(whole[0] == '/');
    let url = browser_url(base_url, strip_prefix, path, query);
    let n = origin(base_url).len() as int;
    assert(url.subrange(0, n + 1) =~= origin(base_url) + "/"@);
}

proof fn lemma_trim_keeps_start(s: Seq<char>, c: char)
    ensures
        crate::text::trim_end_of(s, c).is_prefix_of(s),
    decreases s.len(),
{
    if s.len() > 0 && s.last() == c {
        lemma_trim_keeps_start(s.drop_last(), c);
        let t = crate::text::trim_end_of(s.drop_last(), c);
        assert(s.subrange(0, t.len() as int) =~= s.drop_last().subrange(0, t.len() as int));
    } else {
        assert(s.subrange(0, s.len() as int) =~= s);
    }
}

/// The browser-facing URL of the request for `path` and `query`, as received;
/// `None` if the parts make no URI. Whatever the request, it never leaves the
/// deployment's own origin.
pub fn original_url(config: &LoginConfig, path: &str, query: Option<&str>) -> (r: Option<String>)
    ensures
        ({
            let url = browser_url(
                config.base_url@,
                config.stripped_prefix(),
                path@,
                opt_str(query),
            );
            opt_text(r) == if uri_origin(url) is Some {
                Some(url)
            } else {
                None
            }
        }),
        r matches Some(url) ==> is_on_origin(url@, config.base_url@),
{
    let mut url = config.base_url.scheme().to_owned();
    url.append("://");
    url.append(config.base_url.authority());
    let inner = strip_route_prefix(path, config.strip_prefix.as_ref());
    url.append(join_base_path(&config.base_url, inner.as_str()).as_str());
    if let Some(q) = query {
        url.append("?");
        url.append(q);
    }
    proof {
        assert(url@ =~= browser_url(
            config.base_url@,
            config.stripped_prefix(),
            path@,
            opt_str(query),
        ));
        use_type_invariant(&config.base_url);
        lemma_browser_url_stays_on_origin(
            config.base_url@,
            config.stripped_prefix(),
            path@,
            opt_str(query),
        );
    }
    if parse_uri_origin(url.as_str()).is_some() {
        Some(url)
    } else {
        None
    }
}

// -- The end-session URL --

/// The parameters of an end-session request, in order.
pub open spec fn end_session_pairs(
    id_token_hint: Option<Seq<char>>,
    client_id: Option<Seq<char>>,
    post_logout_redirect_uri: Option<Seq<char>>,
) -> Seq<(Seq<char>, Seq<char>)> {
    optional_pair("id_token_hint"@, id_token_hint) + optional_pair("client_id"@, client_id)
        + optional_pair("post_logout_redirect_uri"@, post_logout_redirect_uri)
}

/// A parameter that may be absent.
pub open spec fn optional_pair(name: Seq<char>, value: Option<Seq<char>>) -> Seq<
    (Seq<char>, Seq<char>),
> {
    match value {
        Some(v) => seq![(name, v)],
        None => Seq::empty(),
    }
}

fn push_pair(pairs: &mut Vec<(String, String)>, name: &str, value: Option<&str>)
    ensures
        pair_texts(final(pairs)@) == pair_texts(old(pairs)@) + optional_pair(
            name@,
            opt_str(value),
        ),
{
    let ghost before = pair_texts(pairs@);
    match value {
        Some(v) => {
            pairs.push((name.to_owned(), v.to_owned()));
            proof {
                assert(pair_texts(pairs@) =~= before + seq![(name@, v@)]);
            }
        },
        None => {
            proof {
                assert(before + Seq::<(Seq<char>, Seq<char>)>::empty() =~= before);
            }
        },
    }
}

/// A URL with more query parameters.
pub open spec fn with_query(url: EndpointView, query: Seq<char>) -> Seq<char> {
    url.text + (if url.query is Some {
        "&"@
    } else {
        "?"@
    }) + query
}

/// `endpoint` with more query parameters, already encoded.
pub fn append_query(endpoint: &EndpointUrl, query: &str) -> (s: String)
    ensures
        s@ == with_query(endpoint@, query@),
{
    let mut s = endpoint.as_str().to_owned();
    if endpoint.has_query() {
        s.append("&");
    } else {
        s.append("?");
    }
    s.append(query);
    s
}

/// The end-session URL of the authorization server with the given parameters,
/// each sent exactly as supplied; `None` if they cannot be encoded.
pub fn build_end_session_url(
    endpoint: &EndpointUrl,
    id_token_hint: Option<&str>,
    client_id: Option<&str>,
    post_logout_redirect_uri: Option<&str>,
) -> (r: Option<String>)
    ensures
        opt_text(r) == match form_text(
            end_session_pairs(
                opt_str(id_token_hint),
                opt_str(client_id),
                opt_str(post_logout_redirect_uri),
            ),
        ) {
            Some(query) => Some(with_query(endpoint@, query)),
            None => None,
        },
{
    let mut pairs: Vec<(String, String)> = Vec::new();
    proof {
        assert(pair_texts(pairs@) =~= Seq::<(Seq<char>, Seq<char>)>::empty());
    }
    push_pair(&mut pairs, "id_token_hint", id_token_hint);
    push_pair(&mut pairs, "client_id", client_id);
    push_pair(&mut pairs, "post_logout_redirect_uri", post_logout_redirect_uri);
    proof {
        assert(pair_texts(pairs@) =~= end_session_pairs(
            opt_str(id_token_hint),
            opt_str(client_id),
            opt_str(post_logout_redirect_uri),
        ));
    }
    match encode_form(&pairs) {
        Some(query) => Some(append_query(endpoint, query.as_str())),
        None => None,
    }
}

// -- Laws of the URLs --

/// The browser-facing URL put together: origin, path behind the base path, and
/// query.
pub open spec fn assembled_url(
    base_url: EndpointView,
    stem: Seq<char>,
    rest: Seq<char>,
    query: Option<Seq<char>>,
) -> Seq<char> {
    base_url.scheme + "://"@ + base_url.authority + crate::config::behind(stem, rest) + (
    if query is Some {
        "?"@ + query->0
    } else {
        Seq::empty()
    })
}

/// The URL a user sees for a request is the deployment's origin, its base path,
/// the path of the request without the front proxy's prefix, and the query of
/// the request, all of it; it is kept exactly when it is a URI.
pub proof fn law_original_url_is_what_the_browser_shows(
    config: LoginConfig,
    path: &str,
    query: Option<&str>,
    stem: Seq<char>,
    rest: Seq<char>,
    r: Option<String>,
)
    requires
        call_ensures(original_url, (&config, path, query), r),
        crate::config::is_stem(stem, config.base_url@.path),
        crate::config::is_inner(
            rest,
            path@,
            if config.strip_prefix is Some {
                Some(config.strip_prefix->0@)
            } else {
                None
            },
        ),
    ensures
        r is Some <==> uri_origin(
            assembled_url(config.base_url@, stem, rest, opt_str(query)),
        ) is Some,
        r matches Some(url) ==> url@ == assembled_url(config.base_url@, stem, rest, opt_str(query)),
{
    crate::config::lemma_stripped_is_inner(rest, path@, config.stripped_prefix());
    crate::config::lemma_joined_behind_stem(config.base_url@.path, stem, rest);
    let whole = assembled_url(config.base_url@, stem, rest, opt_str(query));
    assert(browser_url(config.base_url@, config.stripped_prefix(), path@, opt_str(query))
        =~= whole);
}

/// The end-session URL is the endpoint with the parameters that are given, each
/// as supplied and under its name: behind `?`, or behind `&` where the endpoint
/// has a query already.
pub proof fn law_end_session_url_says_who_asks(
    endpoint: EndpointUrl,
    id_token_hint: Option<&str>,
    client_id: Option<&str>,
    post_logout_redirect_uri: Option<&str>,
    pairs: Seq<(Seq<char>, Seq<char>)>,
    r: Option<String>,
)
    requires
        call_ensures(
            build_end_session_url,
            (&endpoint, id_token_hint, client_id, post_logout_redirect_uri),
            r,
        ),
        client_id is Some && post_logout_redirect_uri is Some,
        pairs.len() == (if id_token_hint is Some {
            3int
        } else {
            2int
        }),
        id_token_hint is Some ==> pairs[0] == ("id_token_hint"@, id_token_hint->0@),
        pairs[pairs.len() - 2] == ("client_id"@, client_id->0@),
        pairs[pairs.len() - 1] == ("post_logout_redirect_uri"@, post_logout_redirect_uri->0@),
    ensures
        r is Some <==> form_text(pairs) is Some,
        r matches Some(url) ==> {
            &&& endpoint@.query is None ==> url@ == endpoint@.text + "?"@ + form_text(pairs)->0
            &&& endpoint@.query is Some ==> url@ == endpoint@.text + "&"@ + form_text(pairs)->0
        },
{
    assert(end_session_pairs(
        opt_str(id_token_hint),
        opt_str(client_id),
        opt_str(post_logout_redirect_uri),
    ) =~= pairs);
}

/// An endpoint URL is exactly what parses as one, part by part.
pub proof fn law_endpoint_is_its_parts(
    text: &str,
    r: Result<EndpointUrl, InvalidEndpointUrl>,
    https: bool,
)
    requires
        call_ensures(EndpointUrl::new, (text,), r),
        r matches Ok(url) ==> call_ensures(EndpointUrl::is_https, (&url,), https),
    ensures
        r is Ok <==> endpoint_parts(text@) is Some,
        r matches Ok(url) ==> {
            &&& url@.text == (endpoint_parts(text@)->0).0
            &&& url@.scheme == (endpoint_parts(text@)->0).1
            &&& url@.authority == (endpoint_parts(text@)->0).2
            &&& url@.path == (endpoint_parts(text@)->0).3
            &&& url@.query == (endpoint_parts(text@)->0).4
            &&& https <==> url@.scheme == "https"@
        },
        r matches Err(e) ==> e.url@ == text@,
{
}

} // verus!
