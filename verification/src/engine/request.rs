//! Classifying requests by their headers.

use http::HeaderMap;
use vstd::prelude::*;

use crate::headers::{
    bytes_spell, bytes_spell_ignoring_case, first_value, header_lists, header_texts, header_value,
    spells, spells_ignoring_case, text_of, values_of,
};
use crate::text::{contains_text, has_part, opt_text, same_text};

verus! {

/// Whether the first value of header `name` spells `text`.
pub open spec fn header_is(headers: HeaderMap, name: Seq<char>, text: Seq<char>) -> bool {
    first_value(headers, name) matches Some(v) && spells(v, text)
}

/// Whether the first value of header `name` spells `text`, ignoring case.
pub open spec fn header_is_ignoring_case(
    headers: HeaderMap,
    name: Seq<char>,
    text: Seq<char>,
) -> bool {
    first_value(headers, name) matches Some(v) && spells_ignoring_case(v, text)
}

/// Whether header `name` is present.
pub open spec fn header_present(headers: HeaderMap, name: Seq<char>) -> bool {
    first_value(headers, name) is Some
}

/// Whether the `Accept` header asks for an HTML page.
pub open spec fn accepts_html(headers: HeaderMap) -> bool {
    match first_value(headers, "accept"@) {
        Some(v) => match text_of(v) {
            Some(t) => has_part(t, "text/html"@) || has_part(t, "application/xhtml+xml"@),
            None => false,
        },
        None => false,
    }
}

/// A top-level browser navigation, as far as the headers tell.
pub open spec fn is_navigation(headers: HeaderMap) -> bool {
    if header_is_ignoring_case(headers, "x-requested-with"@, "XMLHttpRequest"@) {
        false
    } else if header_present(headers, "sec-purpose"@) || header_is_ignoring_case(
        headers,
        "purpose"@,
        "prefetch"@,
    ) {
        false
    } else if header_present(headers, "sec-fetch-mode"@) {
        header_is(headers, "sec-fetch-mode"@, "navigate"@) && (header_present(
            headers,
            "sec-fetch-dest"@,
        ) ==> header_is(headers, "sec-fetch-dest"@, "document"@))
    } else if header_present(headers, "sec-fetch-dest"@) {
        header_is(headers, "sec-fetch-dest"@, "document"@)
    } else {
        header_is(headers, "sec-fetch-user"@, "?1"@) || accepts_html(headers)
    }
}

/// A request the browser marks as coming from another site.
pub open spec fn is_cross_site(headers: HeaderMap) -> bool {
    header_is(headers, "sec-fetch-site"@, "cross-site"@)
}

/// Returns `true` for a CORS preflight (`OPTIONS` +
/// `Access-Control-Request-Method`).
pub fn is_cors_preflight(method: &str, headers: &HeaderMap) -> (r: bool)
    ensures
        r == (method@ == "OPTIONS"@ && header_present(
            *headers,
            "access-control-request-method"@,
        )),
{
    proof {
        reveal_strlit("access-control-request-method");
    }
    same_text(method, "OPTIONS") && header_value(
        headers,
        "access-control-request-method",
    ).is_some()
}

/// Returns `true` if this looks like a top-level browser navigation, using
/// fetch-metadata headers (`Sec-Fetch-Mode`/`-Dest`/`-User`,
/// `X-Requested-With`) with an `Accept: text/html` fallback for older clients.
/// Frame loads (`Sec-Fetch-Dest: iframe` etc.) and speculative
/// prefetch/prerender loads (`Sec-Purpose`) are not navigations.
pub fn is_navigation_request(headers: &HeaderMap) -> (r: bool)
    ensures
        r == is_navigation(*headers),
{
    proof {
        reveal_strlit("x-requested-with");
        reveal_strlit("sec-purpose");
        reveal_strlit("purpose");
        reveal_strlit("sec-fetch-mode");
        reveal_strlit("sec-fetch-dest");
        reveal_strlit("sec-fetch-user");
        reveal_strlit("accept");
    }
    // Classic XHR signal: never a top-level navigation.
    if let Some(v) = header_value(headers, "x-requested-with") {
        if bytes_spell_ignoring_case(&v, "XMLHttpRequest") {
            return false;
        }
    }
    // Speculative prefetch/prerender: the user may never look at the result,
    // so don't start a login flow for it.
    if header_value(headers, "sec-purpose").is_some() {
        return false;
    }
    if let Some(v) = header_value(headers, "purpose") {
        if bytes_spell_ignoring_case(&v, "prefetch") {
            return false;
        }
    }
    // Fetch metadata. Iframe/embed loads also send `mode=navigate`; when the
    // browser also says where the response lands, require a document.
    let dest = header_value(headers, "sec-fetch-dest");
    if let Some(mode) = header_value(headers, "sec-fetch-mode") {
        return bytes_spell(&mode, "navigate") && match &dest {
            Some(d) => bytes_spell(d, "document"),
            None => true,
        };
    }
    if let Some(d) = &dest {
        return bytes_spell(d, "document");
    }
    // Only sent on user-activated top-level navigations, always `?1`.
    if let Some(v) = header_value(headers, "sec-fetch-user") {
        if bytes_spell(&v, "?1") {
            return true;
        }
    }
    // Fallback for older clients.
    let accept = header_texts(headers, "accept");
    if accept.len() == 0 {
        return false;
    }
    proof {
        assert(opt_text(accept@[0]) == text_of(values_of(*headers, "accept"@)[0]));
    }
    match &accept[0] {
        Some(text) => contains_text(text.as_str(), "text/html") || contains_text(
            text.as_str(),
            "application/xhtml+xml",
        ),
        None => false,
    }
}

/// Returns `true` when `Sec-Fetch-Site` identifies the request as cross-site.
/// Requests without the header are not considered cross-site.
#[must_use]
pub fn is_cross_site_request(headers: &HeaderMap) -> (r: bool)
    ensures
        r == is_cross_site(*headers),
{
    proof {
        reveal_strlit("sec-fetch-site");
    }
    match header_value(headers, "sec-fetch-site") {
        Some(v) => bytes_spell(&v, "cross-site"),
        None => false,
    }
}

// -- Laws of the classification --

/// Whether header `name` is present and its first value spells `text`.
pub open spec fn sends(headers: HeaderMap, name: Seq<char>, text: Seq<char>) -> bool {
    header_lists(headers).dom().contains(name) && spells(header_lists(headers)[name][0], text)
}

/// Whether header `name` is present and its first value spells `text`, ignoring
/// case.
pub open spec fn sends_loosely(headers: HeaderMap, name: Seq<char>, text: Seq<char>) -> bool {
    header_lists(headers).dom().contains(name) && spells_ignoring_case(
        header_lists(headers)[name][0],
        text,
    )
}

/// Whether a request carries none of the marks of a script or a prefetch.
pub open spec fn is_unmarked(headers: HeaderMap) -> bool {
    &&& !sends_loosely(headers, "x-requested-with"@, "XMLHttpRequest"@)
    &&& !header_lists(headers).dom().contains("sec-purpose"@)
    &&& !sends_loosely(headers, "purpose"@, "prefetch"@)
}

/// A request that navigates, into a document where it says so, is a navigation
/// whatever its other headers, unless it is marked as a script's or a
/// prefetch.
pub proof fn law_navigating_request_is_a_navigation(headers: HeaderMap, r: bool)
    requires
        call_ensures(is_navigation_request, (&headers,), r),
        is_unmarked(headers),
        sends(headers, "sec-fetch-mode"@, "navigate"@),
        header_lists(headers).dom().contains("sec-fetch-dest"@) ==> sends(
            headers,
            "sec-fetch-dest"@,
            "document"@,
        ),
    ensures
        r,
{
}

/// No script, no prefetch, no frame and no other fetch is a navigation.
pub proof fn law_other_fetches_are_no_navigation(headers: HeaderMap, r: bool)
    requires
        call_ensures(is_navigation_request, (&headers,), r),
        !is_unmarked(headers) || (header_lists(headers).dom().contains("sec-fetch-mode"@) && !sends(
            headers,
            "sec-fetch-mode"@,
            "navigate"@,
        )) || (header_lists(headers).dom().contains("sec-fetch-dest"@) && !sends(
            headers,
            "sec-fetch-dest"@,
            "document"@,
        )),
    ensures
        !r,
{
}

/// A client that does not say how it fetches navigates when it fetches a
/// document; one that says nothing of that either, when the user activated the
/// request or it accepts an HTML page, and not otherwise.
pub proof fn law_older_clients_navigate_for_pages(
    headers: HeaderMap,
    accepted: Seq<char>,
    r: bool,
)
    requires
        call_ensures(is_navigation_request, (&headers,), r),
        is_unmarked(headers),
        !header_lists(headers).dom().contains("sec-fetch-mode"@),
    ensures
        sends(headers, "sec-fetch-dest"@, "document"@) ==> r,
        !header_lists(headers).dom().contains("sec-fetch-dest"@) ==> {
            &&& sends(headers, "sec-fetch-user"@, "?1"@) ==> r
            &&& header_lists(headers).dom().contains("accept"@) && text_of(
                header_lists(headers)["accept"@][0],
            ) == Some(accepted) && (has_part(accepted, "text/html"@) || has_part(
                accepted,
                "application/xhtml+xml"@,
            )) ==> r
            &&& !sends(headers, "sec-fetch-user"@, "?1"@) && (!header_lists(
                headers,
            ).dom().contains("accept"@) || text_of(header_lists(headers)["accept"@][0]) is None || (
            text_of(header_lists(headers)["accept"@][0]) == Some(accepted) && !has_part(accepted, "text/html"@) && !has_part(
                accepted,
                "application/xhtml+xml"@,
            ))) ==> !r
        },
{
}

/// Whether two requests agree on header `name`: both without it, or with the
/// same first value.
pub open spec fn agree_on(a: HeaderMap, b: HeaderMap, name: Seq<char>) -> bool {
    &&& header_lists(a).dom().contains(name) <==> header_lists(b).dom().contains(name)
    &&& header_lists(a).dom().contains(name) ==> header_lists(a)[name][0] == header_lists(
        b,
    )[name][0]
}

/// Whether a request is a navigation depends on seven headers and on no other;
/// whether it is cross-site, on `Sec-Fetch-Site` alone.
pub proof fn law_only_seven_headers_decide(
    a: HeaderMap,
    b: HeaderMap,
    nav_a: bool,
    nav_b: bool,
    cross_a: bool,
    cross_b: bool,
)
    requires
        call_ensures(is_navigation_request, (&a,), nav_a),
        call_ensures(is_navigation_request, (&b,), nav_b),
        call_ensures(is_cross_site_request, (&a,), cross_a),
        call_ensures(is_cross_site_request, (&b,), cross_b),
    ensures
        agree_on(a, b, "x-requested-with"@) && agree_on(a, b, "sec-purpose"@) && agree_on(
            a,
            b,
            "purpose"@,
        ) && agree_on(a, b, "sec-fetch-mode"@) && agree_on(a, b, "sec-fetch-dest"@) && agree_on(
            a,
            b,
            "sec-fetch-user"@,
        ) && agree_on(a, b, "accept"@) ==> nav_a == nav_b,
        agree_on(a, b, "sec-fetch-site"@) ==> cross_a == cross_b,
{
}

/// A request is cross-site exactly when the browser says so, and a preflight
/// exactly when it is an `OPTIONS` request that asks for a method.
pub proof fn law_browser_says_cross_site(
    method: &str,
    headers: HeaderMap,
    cross: bool,
    preflight: bool,
)
    requires
        call_ensures(is_cross_site_request, (&headers,), cross),
        call_ensures(is_cors_preflight, (method, &headers), preflight),
    ensures
        cross <==> sends(headers, "sec-fetch-site"@, "cross-site"@),
        preflight <==> method@ == "OPTIONS"@ && header_lists(headers).dom().contains(
            "access-control-request-method"@,
        ),
        cross == is_cross_site(headers),
{
}

} // verus!
