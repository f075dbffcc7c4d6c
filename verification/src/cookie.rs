//! Cookies: reading them from a request, naming them with the right security
//! prefix, and the machinery both session stores seal their cookies with.

use http::HeaderMap;
use vstd::prelude::*;
use vstd::utf8::{encode_utf8, encode_utf8_decode_utf8, encode_utf8_valid_utf8};

use crate::codec::{
    base64_len, base64url, base64url_bytes, decode_base64url, encode_base64url, is_base64url_char,
    pair_texts, text_from_utf8, utf8_text,
};
use crate::config::RoutePath;
use crate::headers::{header_texts, is_header_text, is_header_value, text_of, values_of};
use crate::metrics::{counter_view, emit_counter, Counter, CounterView, DecryptResult, Label};
use crate::session::{SessionError, SessionErrorKind};
use crate::text::{
    after_prefix, chars_of, decimal, halves, has_prefix, lower, opt_str, opt_text, pieces, quoted,
    quoted_text, same_text, split, split_once, strip_prefix, texts, to_decimal, to_lower, trim,
    trimmed,
};
use crate::time::Duration;

verus! {

// -- Reading cookies --

/// The cookie a `name=value` segment of a `Cookie` header holds, trimmed; a
/// segment without `=` holds none.
pub open spec fn pair_in(segment: Seq<char>) -> Option<(Seq<char>, Seq<char>)> {
    match halves(trimmed(segment), '=') {
        Some((name, value)) => Some((trimmed(name), trimmed(value))),
        None => None,
    }
}

/// The cookies in a list of segments, in order.
pub open spec fn pairs_of_segments(segments: Seq<Seq<char>>) -> Seq<(Seq<char>, Seq<char>)>
    decreases segments.len(),
{
    if segments.len() == 0 {
        Seq::empty()
    } else {
        let before = pairs_of_segments(segments.drop_last());
        match pair_in(segments.last()) {
            Some(pair) => before.push(pair),
            None => before,
        }
    }
}

/// The cookies in the text of a `Cookie` header, in order.
pub open spec fn pairs_in(text: Seq<char>) -> Seq<(Seq<char>, Seq<char>)> {
    pairs_of_segments(pieces(text, ';'))
}

/// The cookies in a list of `Cookie` header values, in order; a value that is
/// not readable text is skipped.
pub open spec fn pairs_of_values(values: Seq<Seq<u8>>) -> Seq<(Seq<char>, Seq<char>)>
    decreases values.len(),
{
    if values.len() == 0 {
        Seq::empty()
    } else {
        let before = pairs_of_values(values.drop_last());
        match text_of(values.last()) {
            Some(text) => before + pairs_in(text),
            None => before,
        }
    }
}

/// The cookies of a request as (name, value) pairs, in the order sent.
pub open spec fn request_cookies(headers: HeaderMap) -> Seq<(Seq<char>, Seq<char>)> {
    pairs_of_values(values_of(headers, "cookie"@))
}

fn append_pairs(text: &str, pairs: &mut Vec<(String, String)>)
    ensures
        pair_texts(final(pairs)@) == pair_texts(old(pairs)@) + pairs_in(text@),
{
    let segments = split(text, ';');
    let ghost before = pair_texts(pairs@);
    let ghost all = texts(segments@);
    let mut i: usize = 0;
    proof {
        assert(all.take(0) =~= Seq::<Seq<char>>::empty());
        assert(before + pairs_of_segments(all.take(0)) =~= before);
    }
    while i < segments.len()
        invariant
            i <= segments@.len(),
            all == texts(segments@),
            pair_texts(pairs@) == before + pairs_of_segments(all.take(i as int)),
        decreases segments@.len() - i,
    {
        let segment = trim(segments[i].as_str());
        proof {
            assert(all.take(i + 1).drop_last() =~= all.take(i as int));
            assert(all.take(i + 1).last() == segments@[i as int]@);
        }
        if let Some((name, value)) = split_once(segment.as_str(), '=') {
            let pair = (trim(name.as_str()), trim(value.as_str()));
            let ghost seen = pair_texts(pairs@);
            let ghost shown = (pair.0@, pair.1@);
            pairs.push(pair);
            proof {
                assert(pair_texts(pairs@) =~= seen.push(shown));
                assert(seen.push(shown) =~= before + pairs_of_segments(all.take(i as int)).push(
                    shown,
                ));
            }
        }
        i = i + 1;
    }
    proof {
        assert(all.take(all.len() as int) =~= all);
    }
}

/// The cookies of a request as (name, value) pairs, in the order sent, names
/// and values trimmed.
pub fn cookie_pairs(headers: &HeaderMap) -> (pairs: Vec<(String, String)>)
    ensures
        pair_texts(pairs@) == request_cookies(*headers),
{
    proof {
        reveal_strlit("cookie");
    }
    let values = header_texts(headers, "cookie");
    let ghost all = values_of(*headers, "cookie"@);
    let mut pairs: Vec<(String, String)> = Vec::new();
    let mut i: usize = 0;
    proof {
        assert(all.take(0) =~= Seq::<Seq<u8>>::empty());
        assert(pair_texts(pairs@) =~= Seq::<(Seq<char>, Seq<char>)>::empty());
    }
    while i < values.len()
        invariant
            i <= values@.len() == all.len(),
            forall|k: int|
                0 <= k < values@.len() ==> opt_text(#[trigger] values@[k]) == text_of(all[k]),
            pair_texts(pairs@) == pairs_of_values(all.take(i as int)),
        decreases values@.len() - i,
    {
        proof {
            assert(all.take(i + 1).drop_last() =~= all.take(i as int));
            assert(all.take(i + 1).last() == all[i as int]);
            assert(opt_text(values@[i as int]) == text_of(all[i as int]));
        }
        if let Some(text) = &values[i] {
            append_pairs(text.as_str(), &mut pairs);
        }
        i = i + 1;
    }
    proof {
        assert(all.take(all.len() as int) =~= all);
    }
    pairs
}

/// The value of the first cookie named `name`.
pub open spec fn value_named(pairs: Seq<(Seq<char>, Seq<char>)>, name: Seq<char>) -> Option<
    Seq<char>,
>
    decreases pairs.len(),
{
    if pairs.len() == 0 {
        None
    } else if pairs[0].0 == name {
        Some(pairs[0].1)
    } else {
        value_named(pairs.skip(1), name)
    }
}

/// The cookie at `i` is the value found when no cookie before it has its name.
pub proof fn lemma_value_named_at(pairs: Seq<(Seq<char>, Seq<char>)>, name: Seq<char>, i: int)
    requires
        0 <= i < pairs.len(),
        pairs[i].0 == name,
        forall|k: int| 0 <= k < i ==> (#[trigger] pairs[k]).0 != name,
    ensures
        value_named(pairs, name) == Some(pairs[i].1),
    decreases i,
{
    if i > 0 {
        assert(pairs[0].0 != name);
        assert forall|k: int| 0 <= k < i - 1 implies (#[trigger] pairs.skip(1)[k]).0 != name by {
            assert(pairs.skip(1)[k] == pairs[k + 1]);
        }
        lemma_value_named_at(pairs.skip(1), name, i - 1);
    }
}

/// No value is found when no cookie has the name.
pub proof fn lemma_value_named_none(pairs: Seq<(Seq<char>, Seq<char>)>, name: Seq<char>)
    requires
        forall|k: int| 0 <= k < pairs.len() ==> (#[trigger] pairs[k]).0 != name,
    ensures
        value_named(pairs, name) is None,
    decreases pairs.len(),
{
    if pairs.len() > 0 {
        assert(pairs[0].0 != name);
        assert forall|k: int| 0 <= k < pairs.len() - 1 implies (#[trigger] pairs.skip(1)[k]).0
            != name by {
            assert(pairs.skip(1)[k] == pairs[k + 1]);
        }
        lemma_value_named_none(pairs.skip(1), name);
    }
}

/// Where some cookie has the name, a value is found.
pub proof fn lemma_first_named(pairs: Seq<(Seq<char>, Seq<char>)>, name: Seq<char>)
    requires
        exists|k: int| 0 <= k < pairs.len() && (#[trigger] pairs[k]).0 == name,
    ensures
        value_named(pairs, name) is Some,
    decreases pairs.len(),
{
    let k = choose|k: int| 0 <= k < pairs.len() && (#[trigger] pairs[k]).0 == name;
    if pairs[0].0 != name {
        assert(pairs.skip(1)[k - 1].0 == name);
        lemma_first_named(pairs.skip(1), name);
    }
}

/// Returns the first value of cookie `name` from the request headers, trimmed.
/// The value is not unquoted or percent-decoded.
pub fn get_cookie(headers: &HeaderMap, name: &str) -> (value: Option<String>)
    ensures
        opt_text(value) == value_named(request_cookies(*headers), name@),
{
    let pairs = cookie_pairs(headers);
    let ghost all = pair_texts(pairs@);
    let mut i: usize = 0;
    while i < pairs.len()
        invariant
            i <= pairs@.len(),
            all == pair_texts(pairs@),
            all == request_cookies(*headers),
            forall|k: int| 0 <= k < i ==> (#[trigger] all[k]).0 != name@,
        decreases pairs@.len() - i,
    {
        proof {
            assert(all[i as int] == (pairs@[i as int].0@, pairs@[i as int].1@));
        }
        if same_text(pairs[i].0.as_str(), name) {
            proof {
                lemma_value_named_at(all, name@, i as int);
            }
            return Some(pairs[i].1.clone());
        }
        i = i + 1;
    }
    proof {
        lemma_value_named_none(all, name@);
    }
    None
}

// -- Login-state cookies --

/// Default prefix of login-state cookie names.
pub const DEFAULT_LOGIN_COOKIE_PREFIX: &'static str = "huskarl_login";

/// Maximum accepted length of an OAuth `state` value.
pub const MAX_OAUTH_STATE_LEN: usize = 256;

/// Whether every character of `s` is a base64url character.
pub open spec fn all_url_safe(s: Seq<char>) -> bool {
    forall|i: int| 0 <= i < s.len() ==> is_base64url_char(#[trigger] s[i])
}

/// Whether every character of `s` is a base64url character.
pub fn is_url_safe(s: &str) -> (r: bool)
    ensures
        r == all_url_safe(s@),
{
    let v = chars_of(s);
    let mut i: usize = 0;
    while i < v.len()
        invariant
            i <= v@.len(),
            v@ == s@,
            forall|k: int| 0 <= k < i ==> is_base64url_char(#[trigger] v@[k]),
        decreases v@.len() - i,
    {
        let c = v[i];
        let letter = (c >= 'A' && c <= 'Z') || (c >= 'a' && c <= 'z');
        if !(letter || (c >= '0' && c <= '9') || c == '-' || c == '_') {
            assert(!is_base64url_char(v@[i as int]));
            return false;
        }
        i = i + 1;
    }
    true
}

/// An OAuth `state` value that is safe to splice into a cookie name:
/// non-empty, within the maximum length, base64url characters only.
pub open spec fn valid_state(state: Seq<char>) -> bool {
    0 < state.len() <= MAX_OAUTH_STATE_LEN && all_url_safe(state)
}

/// Returns `true` if `state` is safe to splice into a cookie name: non-empty,
/// within the maximum length, and only base64url chars (`A-Za-z0-9-_`).
#[must_use]
pub fn is_valid_oauth_state(state: &str) -> (r: bool)
    ensures
        r == valid_state(state@),
{
    let n: usize = chars_of(state).len();
    n > 0 && n <= MAX_OAUTH_STATE_LEN && is_url_safe(state)
}

/// Whether `name` is `prefix` followed by a valid `state`.
pub open spec fn is_login_name(name: Seq<char>, prefix: Seq<char>) -> bool {
    match after_prefix(name, prefix) {
        Some(state) => valid_state(state),
        None => false,
    }
}

/// The names of the login-state cookies among `pairs`, each once, in the order
/// in which they first occur.
pub open spec fn login_names(pairs: Seq<(Seq<char>, Seq<char>)>, prefix: Seq<char>) -> Seq<
    Seq<char>,
>
    decreases pairs.len(),
{
    if pairs.len() == 0 {
        Seq::empty()
    } else {
        let before = login_names(pairs.drop_last(), prefix);
        let name = pairs.last().0;
        if is_login_name(name, prefix) && !before.contains(name) {
            before.push(name)
        } else {
            before
        }
    }
}

/// A sweep finds exactly the login-state cookies of the request, and none
/// twice.
pub proof fn law_login_names_are_the_login_cookies(
    pairs: Seq<(Seq<char>, Seq<char>)>,
    prefix: Seq<char>,
)
    ensures
        login_names(pairs, prefix).no_duplicates(),
        forall|name: Seq<char>|
            #[trigger] login_names(pairs, prefix).contains(name) <==> is_login_name(name, prefix)
                && exists|i: int|
                0 <= i < pairs.len() && (#[trigger] pairs[i]).0 == name,
    decreases pairs.len(),
{
    if pairs.len() > 0 {
        let front = pairs.drop_last();
        let before = login_names(front, prefix);
        let last = pairs.last().0;
        law_login_names_are_the_login_cookies(front, prefix);
        let now = login_names(pairs, prefix);
        assert forall|name: Seq<char>| now.contains(name) <==> is_login_name(name, prefix)
            && exists|i: int| 0 <= i < pairs.len() && (#[trigger] pairs[i]).0 == name by {
            if now.contains(name) {
                if before.contains(name) {
                    let i = choose|i: int|
                        0 <= i < front.len() && (#[trigger] front[i]).0 == name;
                    assert(pairs[i].0 == name);
                } else {
                    let k = choose|k: int| 0 <= k < now.len() && now[k] == name;
                    if k < before.len() {
                        assert(before[k] == name);
                    }
                    assert(pairs[pairs.len() - 1].0 == name);
                }
            }
            if is_login_name(name, prefix) && exists|i: int|
                0 <= i < pairs.len() && (#[trigger] pairs[i]).0 == name {
                let i = choose|i: int| 0 <= i < pairs.len() && (#[trigger] pairs[i]).0 == name;
                if i < front.len() {
                    assert(front[i].0 == name);
                    assert(before.contains(name));
                    let k = choose|k: int| 0 <= k < before.len() && before[k] == name;
                    assert(now[k] == name);
                } else if before.contains(name) {
                    let k = choose|k: int| 0 <= k < before.len() && before[k] == name;
                    assert(now[k] == name);
                } else {
                    assert(now[now.len() - 1] == name);
                }
            }
        }
    }
}

fn holds_text(list: &Vec<String>, text: &str) -> (r: bool)
    ensures
        r == texts(list@).contains(text@),
{
    let mut i: usize = 0;
    while i < list.len()
        invariant
            i <= list@.len(),
            forall|k: int| 0 <= k < i ==> #[trigger] texts(list@)[k] != text@,
        decreases list@.len() - i,
    {
        proof {
            assert(texts(list@)[i as int] == list@[i as int]@);
        }
        if same_text(list[i].as_str(), text) {
            return true;
        }
        i = i + 1;
    }
    false
}

/// Returns the name of every login-state cookie on the request: cookies whose
/// name is `{prefix}{state}` with a suffix satisfying [`is_valid_oauth_state`]
/// (so each returned name is safe to splice into a `Set-Cookie` clear).
/// Duplicates are returned once.
pub fn login_state_cookie_names(headers: &HeaderMap, prefix: &str) -> (names: Vec<String>)
    ensures
        texts(names@) == login_names(request_cookies(*headers), prefix@),
{
    let pairs = cookie_pairs(headers);
    let ghost all = pair_texts(pairs@);
    let mut names: Vec<String> = Vec::new();
    let mut i: usize = 0;
    proof {
        assert(all.take(0) =~= Seq::<(Seq<char>, Seq<char>)>::empty());
        assert(texts(names@) =~= Seq::<Seq<char>>::empty());
    }
    while i < pairs.len()
        invariant
            i <= pairs@.len(),
            all == pair_texts(pairs@),
            texts(names@) == login_names(all.take(i as int), prefix@),
        decreases pairs@.len() - i,
    {
        proof {
            assert(all.take(i + 1).drop_last() =~= all.take(i as int));
            assert(all.take(i + 1).last() == (pairs@[i as int].0@, pairs@[i as int].1@));
        }
        let name = pairs[i].0.as_str();
        if let Some(state) = strip_prefix(name, prefix) {
            if is_valid_oauth_state(state.as_str()) && !holds_text(&names, name) {
                let ghost before = texts(names@);
                names.push(name.to_owned());
                proof {
                    assert(texts(names@) =~= before.push(name@));
                }
            }
        }
        i = i + 1;
    }
    proof {
        assert(all.take(all.len() as int) =~= all);
    }
    names
}

/// The cookie security prefix a deployment can honor: `__Host-` when secure
/// and host-wide (`path == "/"`), `__Secure-` when secure on a narrower path,
/// none otherwise.
pub open spec fn prefix_for(secure: bool, path: Seq<char>) -> Seq<char> {
    if !secure {
        Seq::empty()
    } else if path == "/"@ {
        "__Host-"@
    } else {
        "__Secure-"@
    }
}

/// The cookie security prefix derived from the deployment: `__Host-` when
/// `secure` and the cookie is host-wide (`path == "/"`), `__Secure-` when
/// `secure` on a narrower path, none otherwise.
pub fn security_prefix(secure: bool, path: &str) -> (p: &'static str)
    ensures
        p@ == prefix_for(secure, path@),
{
    if !secure {
        proof {
            reveal_strlit("");
        }
        ""
    } else if same_text(path, "/") {
        "__Host-"
    } else {
        "__Secure-"
    }
}

/// The prefix shared by every login-state cookie name under the given security
/// settings: `{security_prefix}{prefix}_`.
pub open spec fn login_name_prefix(secure: bool, path: Seq<char>, prefix: Seq<char>) -> Seq<
    char,
> {
    prefix_for(secure, path) + prefix + "_"@
}

/// Returns the name prefix shared by every login-state cookie under the given
/// security settings: `{security_prefix}{prefix}_`.
pub fn login_state_cookie_name_prefix(secure: bool, path: &str, prefix: &str) -> (s: String)
    ensures
        s@ == login_name_prefix(secure, path@, prefix@),
{
    let mut s = security_prefix(secure, path).to_owned();
    s.append(prefix);
    s.append("_");
    s
}

/// Returns the security-prefixed login-state cookie name for OAuth `state`,
/// which must satisfy [`is_valid_oauth_state`].
#[must_use]
pub fn login_state_cookie_name(state: &str, secure: bool, path: &str, prefix: &str) -> (s: String)
    requires
        valid_state(state@),
    ensures
        s@ == login_name_prefix(secure, path@, prefix@) + state@,
{
    let mut s = login_state_cookie_name_prefix(secure, path, prefix);
    s.append(state);
    s
}

/// A login-state cookie is named so that the sweep of the same deployment
/// recognizes it.
pub proof fn law_login_cookie_is_recognized(
    state: Seq<char>,
    secure: bool,
    path: Seq<char>,
    prefix: Seq<char>,
)
    requires
        valid_state(state),
    ensures
        is_login_name(
            login_name_prefix(secure, path, prefix) + state,
            login_name_prefix(secure, path, prefix),
        ),
{
    let head = login_name_prefix(secure, path, prefix);
    assert((head + state).subrange(0, head.len() as int) =~= head);
    assert((head + state).skip(head.len() as int) =~= state);
}

// -- Session cookies --

/// The session cookie name with the derived security prefix prepended.
pub open spec fn session_name(name: Seq<char>, secure: bool, path: Seq<char>) -> Seq<char> {
    prefix_for(secure, path) + name
}

/// Returns the session cookie name with the derived [`security_prefix`]
/// prepended.
pub fn session_cookie_name(name: &str, secure: bool, path: &str) -> (s: String)
    ensures
        s@ == session_name(name@, secure, path@),
{
    let mut s = security_prefix(secure, path).to_owned();
    s.append(name);
    s
}

/// `s` with its ASCII letters in lower case.
pub open spec fn lowered(s: Seq<char>) -> Seq<char> {
    s.map_values(|c: char| lower(c))
}

fn to_lowered(s: &str) -> (r: String)
    ensures
        r@ == lowered(s@),
{
    let v = chars_of(s);
    let mut r = String::new();
    let mut i: usize = 0;
    while i < v.len()
        invariant
            i <= v@.len(),
            r@ == lowered(v@.take(i as int)),
        decreases v@.len() - i,
    {
        r.push(to_lower(v[i]));
        proof {
            assert(lowered(v@.take(i + 1)) =~= lowered(v@.take(i as int)).push(
                lower(v@[i as int]),
            ));
        }
        i = i + 1;
    }
    proof {
        assert(v@.take(v@.len() as int) =~= v@);
    }
    r
}

/// Whether `name` begins with a security prefix in any casing, as browsers
/// match them.
pub open spec fn has_security_prefix(name: Seq<char>) -> bool {
    "__host-"@.is_prefix_of(lowered(name)) || "__secure-"@.is_prefix_of(lowered(name))
}

/// Why `name` is no session cookie base name; `None` when it is one.
pub open spec fn name_fault(name: Seq<char>) -> Option<Seq<char>> {
    if name.len() == 0 {
        Some("must not be empty"@)
    } else if !all_url_safe(name) {
        Some("must contain only ASCII letters, digits, '_', or '-'"@)
    } else if has_security_prefix(name) {
        Some(
            "must not start with `__Host-` or `__Secure-`; the security prefix is derived from the deployment (base_url scheme and cookie path) — configure the bare name"@,
        )
    } else {
        None
    }
}

/// Error returned when a configured session cookie name is rejected.
#[derive(Debug, Clone, PartialEq, Eq)]
pub struct InvalidCookieName {
    /// The offending name.
    pub name: String,
    /// Why the name was rejected.
    pub reason: &'static str,
}

impl InvalidCookieName {
    /// The message of this error.
    pub fn message(&self) -> (s: String)
        ensures
            s@ == "invalid cookie name "@ + quoted_text(self.name@) + ": "@ + self.reason@,
    {
        let mut s = "invalid cookie name ".to_owned();
        s.append(quoted(self.name.as_str()).as_str());
        s.append(": ");
        s.append(self.reason);
        s
    }
}

/// A validated session cookie base name: non-empty, restricted to
/// `[A-Za-z0-9_-]`, and without a `__Host-`/`__Secure-` prefix (the store
/// derives the right prefix from the deployment). Cookie-name counterpart to
/// [`RoutePath`].
#[derive(Debug)]
pub struct CookieName(String);

impl View for CookieName {
    type V = Seq<char>;

    closed spec fn view(&self) -> Seq<char> {
        self.0@
    }
}

impl CookieName {
    #[verifier::type_invariant]
    spec fn well_formed(self) -> bool {
        name_fault(self.0@) is None
    }

    /// Validates `name` (non-empty, `[A-Za-z0-9_-]`) and wraps it. `.` is
    /// excluded as it separates the chunk/kid-sidecar namespace.
    ///
    /// A `__Host-`/`__Secure-` prefix (any casing, as browsers match prefixes
    /// case-insensitively) is rejected: an explicit prefix could contradict
    /// the deployment, and browsers silently discard such a `Set-Cookie`.
    ///
    /// # Errors
    ///
    /// Returns [`InvalidCookieName`] if `name` is empty, has a disallowed
    /// char, or carries a security prefix.
    pub fn new(name: &str) -> (r: Result<Self, InvalidCookieName>)
        ensures
            match r {
                Ok(n) => n@ == name@ && name_fault(name@) is None,
                Err(e) => e.name@ == name@ && name_fault(name@) == Some(e.reason@),
            },
    {
        if name.is_empty() {
            return Err(InvalidCookieName { name: name.to_owned(), reason: "must not be empty" });
        }
        if !is_url_safe(name) {
            return Err(
                InvalidCookieName {
                    name: name.to_owned(),
                    reason: "must contain only ASCII letters, digits, '_', or '-'",
                },
            );
        }
        let low = to_lowered(name);
        if has_prefix(low.as_str(), "__host-") || has_prefix(low.as_str(), "__secure-") {
            return Err(
                InvalidCookieName {
                    name: name.to_owned(),
                    reason:
                        "must not start with `__Host-` or `__Secure-`; the security prefix is derived from the deployment (base_url scheme and cookie path) — configure the bare name",
                },
            );
        }
        Ok(CookieName(name.to_owned()))
    }

    /// The validated name as a string slice.
    #[must_use]
    pub fn as_str(&self) -> (s: &str)
        ensures
            s@ == self@,
            name_fault(s@) is None,
    {
        proof {
            use_type_invariant(self);
        }
        self.0.as_str()
    }
}

impl Clone for CookieName {
    fn clone(&self) -> (r: Self)
        ensures
            r@ == self@,
    {
        proof {
            use_type_invariant(self);
        }
        CookieName(self.0.clone())
    }
}

impl PartialEq for CookieName {
    fn eq(&self, other: &CookieName) -> (r: bool) {
        self.0 == other.0
    }
}

impl vstd::std_specs::cmp::PartialEqSpecImpl for CookieName {
    open spec fn obeys_eq_spec() -> bool {
        true
    }

    open spec fn eq_spec(&self, other: &CookieName) -> bool {
        self@ == other@
    }
}

impl vstd::std_specs::convert::TryFromSpecImpl<&str> for CookieName {
    open spec fn obeys_try_from_spec() -> bool {
        false
    }

    open spec fn try_from_spec(name: &str) -> Result<CookieName, InvalidCookieName> {
        arbitrary()
    }
}

impl TryFrom<&str> for CookieName {
    type Error = InvalidCookieName;

    fn try_from(name: &str) -> (r: Result<Self, InvalidCookieName>)
        ensures
            match r {
                Ok(n) => n@ == name@ && name_fault(name@) is None,
                Err(e) => e.name@ == name@ && name_fault(name@) == Some(e.reason@),
            },
    {
        CookieName::new(name)
    }
}

impl vstd::std_specs::convert::TryFromSpecImpl<String> for CookieName {
    open spec fn obeys_try_from_spec() -> bool {
        false
    }

    open spec fn try_from_spec(name: String) -> Result<CookieName, InvalidCookieName> {
        arbitrary()
    }
}

impl TryFrom<String> for CookieName {
    type Error = InvalidCookieName;

    fn try_from(name: String) -> (r: Result<Self, InvalidCookieName>)
        ensures
            match r {
                Ok(n) => n@ == name@ && name_fault(name@) is None,
                Err(e) => e.name@ == name@ && name_fault(name@) == Some(e.reason@),
            },
    {
        CookieName::new(name.as_str())
    }
}

impl std::str::FromStr for CookieName {
    type Err = InvalidCookieName;

    fn from_str(name: &str) -> (r: Result<Self, InvalidCookieName>)
        ensures
            match r {
                Ok(n) => n@ == name@ && name_fault(name@) is None,
                Err(e) => e.name@ == name@ && name_fault(name@) == Some(e.reason@),
            },
    {
        CookieName::new(name)
    }
}

/// `HttpOnly; SameSite=Lax; Path={path}`, and `; Secure` when secure.
pub open spec fn attrs_for(secure: bool, path: Seq<char>) -> Seq<char> {
    "HttpOnly; SameSite=Lax; Path="@ + path + (if secure {
        "; Secure"@
    } else {
        Seq::empty()
    })
}

/// Returns `"HttpOnly; SameSite=Lax; Path={path}"`, appending `; Secure` when
/// `secure` is `true`.
#[must_use]
pub fn cookie_attrs(secure: bool, path: &str) -> (s: String)
    ensures
        s@ == attrs_for(secure, path@),
{
    let mut s = "HttpOnly; SameSite=Lax; Path=".to_owned();
    s.append(path);
    if secure {
        s.append("; Secure");
    }
    s
}

/// A name on the wire carries a security prefix exactly when the deployment is
/// secure: the configured name never brings one along.
pub proof fn law_wire_name_prefix_is_derived(name: Seq<char>, secure: bool, path: Seq<char>)
    requires
        name_fault(name) is None,
    ensures
        has_security_prefix(session_name(name, secure, path)) <==> secure,
{
    let wire = session_name(name, secure, path);
    if secure {
        reveal_strlit("__Host-");
        reveal_strlit("__Secure-");
        reveal_strlit("__host-");
        reveal_strlit("__secure-");
        if path == "/"@ {
            assert("__host-"@ =~= lowered(wire).subrange(0, 7));
        } else {
            assert("__secure-"@ =~= lowered(wire).subrange(0, 9));
        }
    } else {
        assert(wire =~= name);
    }
}

/// The `Set-Cookie` value that sets a cookie.
pub open spec fn set_cookie(name: Seq<char>, value: Seq<char>, attrs: Seq<char>) -> Seq<char> {
    name + "="@ + value + "; "@ + attrs
}

/// The `Set-Cookie` value that clears a cookie.
pub open spec fn clear_cookie(name: Seq<char>, attrs: Seq<char>) -> Seq<char> {
    name + "=; "@ + attrs + "; Max-Age=0"@
}

/// The `Set-Cookie` value that sets a cookie.
pub fn set_cookie_text(name: &str, value: &str, attrs: &str) -> (s: String)
    ensures
        s@ == set_cookie(name@, value@, attrs@),
{
    let mut s = name.to_owned();
    s.append("=");
    s.append(value);
    s.append("; ");
    s.append(attrs);
    s
}

/// The `Set-Cookie` value that clears a cookie.
pub fn clear_cookie_text(name: &str, attrs: &str) -> (s: String)
    ensures
        s@ == clear_cookie(name@, attrs@),
{
    let mut s = name.to_owned();
    s.append("=; ");
    s.append(attrs);
    s.append("; Max-Age=0");
    s
}

/// A set cookie begins with its name and value.
pub proof fn lemma_set_cookie_begins(name: Seq<char>, value: Seq<char>, attrs: Seq<char>)
    ensures
        (name + "="@ + value + "; "@).is_prefix_of(set_cookie(name, value, attrs)),
        attrs.is_suffix_of(set_cookie(name, value, attrs)),
{
    let head = name + "="@ + value + "; "@;
    let whole = set_cookie(name, value, attrs);
    assert(whole.subrange(0, head.len() as int) =~= head);
    assert(whole.subrange(whole.len() - attrs.len(), whole.len() as int) =~= attrs);
}

/// A cleared cookie begins with its name and an empty value, and ends at once.
pub proof fn lemma_clear_cookie_ends(name: Seq<char>, attrs: Seq<char>)
    ensures
        (name + "=; "@).is_prefix_of(clear_cookie(name, attrs)),
        (name + "=; "@ + attrs).is_prefix_of(clear_cookie(name, attrs)),
        "; Max-Age=0"@.is_suffix_of(clear_cookie(name, attrs)),
{
    let whole = clear_cookie(name, attrs);
    let head = name + "=; "@;
    assert(whole.subrange(0, head.len() as int) =~= head);
    assert(whole.subrange(0, (head + attrs).len() as int) =~= head + attrs);
    assert(whole.subrange(whole.len() - "; Max-Age=0"@.len(), whole.len() as int)
        =~= "; Max-Age=0"@);
}

// -- Header safety --

/// Two texts that may stand in a header may stand there together.
pub proof fn lemma_header_text_joins(a: Seq<char>, b: Seq<char>)
    requires
        is_header_text(a),
        is_header_text(b),
    ensures
        is_header_text(a + b),
{
    assert forall|i: int| 0 <= i < (a + b).len() implies crate::headers::is_header_char(
        #[trigger] (a + b)[i],
    ) by {
        if i < a.len() {
            assert((a + b)[i] == a[i]);
        } else {
            assert((a + b)[i] == b[i - a.len()]);
        }
    }
}

/// Base64url text may stand in a header.
pub proof fn lemma_url_safe_is_header_text(s: Seq<char>)
    requires
        all_url_safe(s),
    ensures
        is_header_text(s),
{
    assert forall|i: int| 0 <= i < s.len() implies crate::headers::is_header_char(
        #[trigger] s[i],
    ) by {
        assert(is_base64url_char(s[i]));
    }
}

/// Decimal numbers may stand in a header.
pub proof fn lemma_decimal_is_header_text(n: nat)
    ensures
        is_header_text(decimal(n)),
{
    crate::text::lemma_decimal_reads_back(n);
    assert forall|i: int| 0 <= i < decimal(n).len() implies crate::headers::is_header_char(
        #[trigger] decimal(n)[i],
    ) by {
        assert(crate::text::is_digit(decimal(n)[i]));
    }
}

/// The attributes of a cookie on a route path may stand in a header.
pub proof fn lemma_attrs_are_header_text(secure: bool, path: Seq<char>)
    requires
        crate::config::route_fault(path) is None,
    ensures
        is_header_text(attrs_for(secure, path)),
{
    reveal_strlit("HttpOnly; SameSite=Lax; Path=");
    reveal_strlit("; Secure");
    assert forall|i: int| 0 <= i < path.len() implies crate::headers::is_header_char(
        #[trigger] path[i],
    ) by {
        assert(!crate::config::is_control(path[i]));
    }
    lemma_header_text_joins("HttpOnly; SameSite=Lax; Path="@, path);
    lemma_header_text_joins(
        "HttpOnly; SameSite=Lax; Path="@ + path,
        if secure {
            "; Secure"@
        } else {
            Seq::empty()
        },
    );
}

/// The security prefixes may stand in a header.
pub proof fn lemma_session_name_is_header_text(name: Seq<char>, secure: bool, path: Seq<char>)
    requires
        is_header_text(name),
    ensures
        is_header_text(session_name(name, secure, path)),
{
    reveal_strlit("__Host-");
    reveal_strlit("__Secure-");
    lemma_header_text_joins(prefix_for(secure, path), name);
}

/// A `Set-Cookie` value made of header-safe parts may stand in a header.
pub proof fn lemma_set_cookie_is_header_text(name: Seq<char>, value: Seq<char>, attrs: Seq<char>)
    requires
        is_header_text(name),
        is_header_text(value),
        is_header_text(attrs),
    ensures
        is_header_text(set_cookie(name, value, attrs)),
        is_header_text(clear_cookie(name, attrs)),
{
    reveal_strlit("=");
    reveal_strlit("; ");
    reveal_strlit("=; ");
    reveal_strlit("; Max-Age=0");
    lemma_header_text_joins(name, "="@);
    lemma_header_text_joins(name + "="@, value);
    lemma_header_text_joins(name + "="@ + value, "; "@);
    lemma_header_text_joins(name + "="@ + value + "; "@, attrs);
    lemma_header_text_joins(name, "=; "@);
    lemma_header_text_joins(name + "=; "@, attrs);
    lemma_header_text_joins(name + "=; "@ + attrs, "; Max-Age=0"@);
}

// -- Sealing --

/// Default `Max-Age` for session cookies, in nanoseconds (400 days, the browser
/// ceiling).
pub const DEFAULT_COOKIE_MAX_AGE_NANOS: u128 = 34_560_000_000_000_000;

/// Default `Max-Age` for session cookies (400 days, the browser ceiling).
pub fn default_cookie_max_age() -> (d: Duration)
    ensures
        d.nanos == DEFAULT_COOKIE_MAX_AGE_NANOS,
{
    Duration::from_hours(9600)
}

/// Suffix forming the kid sidecar cookie name. The sidecar carries the active
/// key's base64url identity as a decrypt hint; it is not security-bearing.
pub const KID_COOKIE_SUFFIX: &'static str = ".kid";

/// The name of the kid sidecar of a session cookie.
pub open spec fn kid_name(base_name: Seq<char>) -> Seq<char> {
    base_name + KID_COOKIE_SUFFIX@
}

/// Returns the sidecar cookie name for the given session cookie base name.
#[must_use]
pub fn kid_cookie_name(base_name: &str) -> (s: String)
    ensures
        s@ == kid_name(base_name@),
{
    let mut s = base_name.to_owned();
    s.append(KID_COOKIE_SUFFIX);
    s
}

/// The identity a kid sidecar value stands for, if it is base64url of UTF-8.
pub open spec fn kid_in(value: Seq<char>) -> Option<Seq<char>> {
    match base64url_bytes(value) {
        Some(bytes) => utf8_text(bytes),
        None => None,
    }
}

/// The identity the kid sidecar of `base_name` names on a request.
pub open spec fn request_kid(headers: HeaderMap, base_name: Seq<char>) -> Option<Seq<char>> {
    match value_named(request_cookies(headers), kid_name(base_name)) {
        Some(value) => kid_in(value),
        None => None,
    }
}

/// Reads the kid sidecar cookie for `base_name` and returns the decoded
/// identity, or `None` if it is missing, not base64url, or not UTF-8.
pub fn get_kid_cookie(headers: &HeaderMap, base_name: &str) -> (kid: Option<String>)
    ensures
        opt_text(kid) == request_kid(*headers, base_name@),
{
    let name = kid_cookie_name(base_name);
    match get_cookie(headers, name.as_str()) {
        Some(encoded) => decode_kid(encoded.as_str()),
        None => None,
    }
}

/// The identity a kid sidecar value stands for, or `None` if it is not
/// base64url, or not UTF-8.
pub fn decode_kid(value: &str) -> (kid: Option<String>)
    ensures
        opt_text(kid) == kid_in(value@),
{
    match decode_base64url(value) {
        Some(bytes) => text_from_utf8(bytes),
        None => None,
    }
}

/// Returns the base64url encoding of `identity`, the kid sidecar cookie value
/// (identities may contain chars outside the cookie-value charset). Reading
/// the value back gives the identity.
#[must_use]
pub fn encode_kid(identity: &str) -> (s: String)
    requires
        base64_len(encode_utf8(identity@).len()) <= isize::MAX,
    ensures
        s@ == base64url(encode_utf8(identity@)),
        all_url_safe(s@),
        kid_in(s@) == Some(identity@),
{
    proof {
        encode_utf8_valid_utf8(identity@);
        encode_utf8_decode_utf8(identity@);
    }
    encode_base64url(identity.as_bytes())
}

/// The metrics label for a kid the client supplied: itself when a configured
/// key has that identity, `unknown` otherwise.
pub open spec fn kid_label(kid: Option<Seq<char>>, matches_key: bool) -> Option<Seq<char>> {
    match kid {
        Some(k) => if matches_key {
            Some(k)
        } else {
            Some("unknown"@)
        },
        None => None,
    }
}

/// Normalizes a client-supplied sidecar kid into a bounded metrics label: kept
/// only when it names a configured key exactly (`matches_key`), else
/// `"unknown"` to cap label cardinality.
pub fn normalize_kid_label<'a>(kid: Option<&'a str>, matches_key: bool) -> (label: Option<&'a str>)
    ensures
        opt_str(label) == kid_label(opt_str(kid), matches_key),
{
    match kid {
        Some(k) => if matches_key {
            Some(k)
        } else {
            Some("unknown")
        },
        None => None,
    }
}

/// Which keys an unseal is tried with.
#[derive(Debug, Clone, Copy, PartialEq, Eq, Structural)]
pub enum UnsealAttempt {
    /// Only the key the kid sidecar names.
    Hinted,
    /// Every configured key.
    AllKeys,
}

/// What to do after an unseal attempt.
#[derive(Debug, Clone, Copy, PartialEq, Eq, Structural)]
pub enum UnsealStep {
    /// Try again.
    Try(UnsealAttempt),
    /// The plaintext is authentic.
    Authentic,
    /// No key opens the bundle.
    Failed,
}

/// The attempt an unseal begins with: the hint comes first when there is one.
pub fn first_unseal(has_hint: bool) -> (a: UnsealAttempt)
    ensures
        a == (if has_hint {
            UnsealAttempt::Hinted
        } else {
            UnsealAttempt::AllKeys
        }),
{
    if has_hint {
        UnsealAttempt::Hinted
    } else {
        UnsealAttempt::AllKeys
    }
}

/// What follows an attempt: a failed hint falls back to all keys.
pub open spec fn unseal_step(attempt: UnsealAttempt, opened: bool) -> UnsealStep {
    if opened {
        UnsealStep::Authentic
    } else if attempt is Hinted {
        UnsealStep::Try(UnsealAttempt::AllKeys)
    } else {
        UnsealStep::Failed
    }
}

/// What follows an attempt, treating the kid sidecar as a hint, not a filter:
/// if unsealing under the hint fails, retry once across all keys. A stale or
/// tampered hint must not lock out an otherwise-authentic session.
pub fn unseal_with_kid_fallback(attempt: UnsealAttempt, opened: bool) -> (step: UnsealStep)
    ensures
        step == unseal_step(attempt, opened),
{
    if opened {
        UnsealStep::Authentic
    } else {
        match attempt {
            UnsealAttempt::Hinted => UnsealStep::Try(UnsealAttempt::AllKeys),
            UnsealAttempt::AllKeys => UnsealStep::Failed,
        }
    }
}

/// How an unseal ends, given whether the hinted key and whether any key opens
/// the bundle.
pub open spec fn unseal_outcome(
    attempt: UnsealAttempt,
    hint_opens: bool,
    any_opens: bool,
) -> UnsealStep
    decreases
            (if attempt is Hinted {
                1nat
            } else {
                0nat
            }),
{
    let opened = if attempt is Hinted {
        hint_opens
    } else {
        any_opens
    };
    match unseal_step(attempt, opened) {
        UnsealStep::Try(next) => if attempt is Hinted && next is AllKeys {
            unseal_outcome(next, hint_opens, any_opens)
        } else {
            UnsealStep::Failed
        },
        end => end,
    }
}

/// The plaintext an unseal ends with, given what the hinted key and what all
/// keys open the bundle to.
pub open spec fn unsealed(
    hinted: Option<Seq<u8>>,
    any: Option<Seq<u8>>,
    has_hint: bool,
) -> Option<Seq<u8>> {
    if has_hint && unseal_step(UnsealAttempt::Hinted, hinted is Some) is Authentic {
        hinted
    } else if unseal_step(UnsealAttempt::AllKeys, any is Some) is Authentic {
        any
    } else {
        None
    }
}

/// The kid sidecar decides only what is tried first: whichever key it names, a
/// bundle that some configured key opens is opened, and no other is.
pub proof fn law_kid_is_a_hint_not_a_filter(
    attempt: UnsealAttempt,
    hint_opens: bool,
    any_opens: bool,
)
    requires
        hint_opens ==> any_opens,
    ensures
        unseal_outcome(attempt, hint_opens, any_opens) == (if any_opens {
            UnsealStep::Authentic
        } else {
            UnsealStep::Failed
        }),
{
    reveal_with_fuel(unseal_outcome, 2);
}

/// Shared cookie-sealing machinery behind both session stores:
/// security-prefixed naming, cookie attributes, associated data, the kid
/// sidecar, and encrypt/decrypt metrics.
#[derive(Debug)]
pub struct CookieSealer {
    raw_cookie_name: CookieName,
    cookie_name: String,
    secure: bool,
    cookie_path: RoutePath,
    max_age: Duration,
    metrics_name: Option<String>,
}

/// The settings of a [`CookieSealer`].
#[verifier::ext_equal]
pub struct SealerView {
    /// The configured cookie name, before any security prefix is applied.
    pub name: Seq<char>,
    /// Whether the deployment is HTTPS.
    pub secure: bool,
    /// The cookie `Path`.
    pub path: Seq<char>,
    /// The cookie lifetime.
    pub max_age: Duration,
    /// The instance `name` label for counters.
    pub metrics_name: Option<Seq<char>>,
}

/// The settings a store's cookies have by default: secure, for as long as
/// browsers keep cookies, and without an instance name in its metrics.
pub open spec fn default_sealer(name: Seq<char>, path: Seq<char>) -> SealerView {
    SealerView {
        name,
        secure: true,
        path,
        max_age: Duration { nanos: DEFAULT_COOKIE_MAX_AGE_NANOS },
        metrics_name: None,
    }
}

impl SealerView {
    /// The cookie name actually emitted on the wire.
    pub open spec fn wire_name(self) -> Seq<char> {
        session_name(self.name, self.secure, self.path)
    }

    /// Cookie attributes without `Max-Age`.
    pub open spec fn base_attrs(self) -> Seq<char> {
        attrs_for(self.secure, self.path)
    }

    /// Cookie attributes with the configured `Max-Age`, in whole seconds.
    pub open spec fn full_attrs(self) -> Seq<char> {
        self.base_attrs() + "; Max-Age="@ + decimal((self.max_age.nanos / 1_000_000_000) as nat)
    }

    /// The associated data that binds a sealed value to its purpose and to
    /// this cookie.
    pub open spec fn aad(self, purpose: Seq<char>) -> Seq<char> {
        purpose + ":"@ + self.wire_name()
    }

    /// The `Set-Cookie` value for the kid sidecar.
    pub open spec fn kid_header(self, kid: Option<Seq<char>>) -> Seq<char> {
        match kid {
            Some(k) => set_cookie(
                kid_name(self.wire_name()),
                base64url(encode_utf8(k)),
                self.full_attrs(),
            ),
            None => clear_cookie(kid_name(self.wire_name()), self.base_attrs()),
        }
    }

    /// The counter for a sealed cookie.
    pub open spec fn encrypt_counter(self, kid: Option<Seq<char>>) -> CounterView {
        counter_view(
            "huskarl.session_cookie.encrypt"@,
            seq![
                ("cookie"@, self.wire_name()),
                (
                    "kid"@,
                    match kid {
                        Some(k) => k,
                        None => "none"@,
                    },
                ),
            ],
            self.metrics_name,
        )
    }

    /// The counter for an attempt to open a cookie.
    pub open spec fn decrypt_counter(
        self,
        kid: Option<Seq<char>>,
        matches_key: bool,
        result: DecryptResult,
    ) -> CounterView {
        counter_view(
            "huskarl.session_cookie.decrypt"@,
            seq![
                ("cookie"@, self.wire_name()),
                (
                    "kid"@,
                    match kid_label(kid, matches_key) {
                        Some(k) => k,
                        None => "none"@,
                    },
                ),
                ("outcome"@, result.label()),
            ],
            self.metrics_name,
        )
    }
}

impl View for CookieSealer {
    type V = SealerView;

    closed spec fn view(&self) -> SealerView {
        SealerView {
            name: self.raw_cookie_name@,
            secure: self.secure,
            path: self.cookie_path@,
            max_age: self.max_age,
            metrics_name: opt_text(self.metrics_name),
        }
    }
}

impl CookieSealer {
    #[verifier::type_invariant]
    spec fn well_formed(self) -> bool {
        &&& self.cookie_name@ == session_name(
            self.raw_cookie_name@,
            self.secure,
            self.cookie_path@,
        )
        &&& name_fault(self.raw_cookie_name@) is None
        &&& crate::config::route_fault(self.cookie_path@) is None
    }

    /// Derives a secure-by-default cookie name; `secure` is re-stamped later
    /// via [`apply_secure`](Self::apply_secure).
    pub fn new(cookie_name: CookieName, cookie_path: RoutePath, max_age: Duration) -> (s: Self)
        ensures
            s@ == (SealerView {
                name: cookie_name@,
                secure: true,
                path: cookie_path@,
                max_age,
                metrics_name: None,
            }),
    {
        let wire = session_cookie_name(cookie_name.as_str(), true, cookie_path.as_str());
        CookieSealer {
            raw_cookie_name: cookie_name,
            cookie_name: wire,
            secure: true,
            cookie_path,
            max_age,
            metrics_name: None,
        }
    }

    /// The security-prefixed cookie name actually emitted on the wire.
    pub fn cookie_name(&self) -> (s: &str)
        ensures
            s@ == self@.wire_name(),
            name_fault(self@.name) is None,
            crate::config::route_fault(self@.path) is None,
    {
        proof {
            use_type_invariant(self);
        }
        self.cookie_name.as_str()
    }

    /// Sets the instance `name` label for counters.
    pub fn set_metrics_name(&mut self, metrics_name: Option<&str>)
        ensures
            final(self)@ == (SealerView { metrics_name: opt_str(metrics_name), ..old(self)@ }),
    {
        proof {
            use_type_invariant(&*self);
        }
        let name = match metrics_name {
            Some(n) => Some(n.to_owned()),
            None => None,
        };
        self.metrics_name = name;
    }

    /// AEAD associated data `"{purpose}:{cookie_name}"` for the given `purpose`
    /// (`"session"` / `"session_ptr"`), binding the value to this cookie. Seal
    /// and open must use the same value.
    pub fn aad(&self, purpose: &str) -> (bytes: Vec<u8>)
        ensures
            bytes@ == encode_utf8(self@.aad(purpose@)),
    {
        let mut s = purpose.to_owned();
        s.append(":");
        s.append(self.cookie_name());
        vstd::slice::slice_to_vec(s.as_str().as_bytes())
    }

    /// Clamps the cookie `Max-Age` to `limit`, so the browser discards the
    /// cookie once the session can no longer be valid. Only ever lowers the
    /// configured value.
    pub fn clamp_max_age(&mut self, limit: Duration)
        ensures
            final(self)@ == (SealerView {
                max_age: old(self)@.max_age.shorter(limit),
                ..old(self)@
            }),
            final(self)@.max_age.nanos <= limit.nanos,
    {
        proof {
            use_type_invariant(&*self);
        }
        let shorter = self.max_age.min_with(limit);
        self.max_age = shorter;
    }

    /// Re-derives the wire name for the deployment's real `secure` flag.
    pub fn apply_secure(&mut self, secure: bool)
        ensures
            final(self)@ == (SealerView { secure, ..old(self)@ }),
    {
        proof {
            use_type_invariant(&*self);
        }
        let wire = session_cookie_name(
            self.raw_cookie_name.as_str(),
            secure,
            self.cookie_path.as_str(),
        );
        *self = CookieSealer {
            raw_cookie_name: self.raw_cookie_name.clone(),
            cookie_name: wire,
            secure,
            cookie_path: self.cookie_path.clone(),
            max_age: self.max_age,
            metrics_name: self.metrics_name.clone(),
        };
    }

    /// Cookie attributes without `Max-Age` (clears append their own).
    pub fn base_cookie_attrs(&self) -> (s: String)
        ensures
            s@ == self@.base_attrs(),
    {
        cookie_attrs(self.secure, self.cookie_path.as_str())
    }

    /// Full cookie attributes including the configured `Max-Age`.
    pub fn cookie_attrs(&self) -> (s: String)
        ensures
            s@ == self@.full_attrs(),
    {
        let mut s = self.base_cookie_attrs();
        s.append("; Max-Age=");
        s.append(to_decimal(self.max_age.as_secs()).as_str());
        s
    }

    /// Builds the `Set-Cookie` for the kid sidecar: the base64url-encoded
    /// identity when `kid` is `Some`, otherwise a `Max-Age=0` clear. The name,
    /// the path and the encoded identity are header-safe by construction, so
    /// the value always is.
    ///
    /// # Errors
    ///
    /// An [`Encoding`](SessionErrorKind::Encoding) error where the value could
    /// not stand in a header.
    pub fn build_kid_header(&self, kid: Option<&str>) -> (r: Result<String, SessionError>)
        requires
            kid matches Some(k) ==> base64_len(encode_utf8(k@).len()) <= isize::MAX,
        ensures
            r is Ok,
            r->Ok_0@ == self@.kid_header(opt_str(kid)),
            is_header_text(r->Ok_0@),
    {
        let name = kid_cookie_name(self.cookie_name());
        let value = match kid {
            Some(k) => {
                let encoded = encode_kid(k);
                proof {
                    lemma_url_safe_is_header_text(encoded@);
                }
                set_cookie_text(name.as_str(), encoded.as_str(), self.cookie_attrs().as_str())
            },
            None => clear_cookie_text(name.as_str(), self.base_cookie_attrs().as_str()),
        };
        proof {
            lemma_sealer_texts(self@);
            lemma_set_cookie_is_header_text(
                kid_name(self@.wire_name()),
                Seq::empty(),
                self@.base_attrs(),
            );
            if let Some(k) = kid {
                lemma_set_cookie_is_header_text(
                    kid_name(self@.wire_name()),
                    base64url(encode_utf8(k@)),
                    self@.full_attrs(),
                );
            }
        }
        if is_header_value(value.as_str()) {
            Ok(value)
        } else {
            Err(SessionError::new(SessionErrorKind::Encoding, "failed to parse header value"))
        }
    }

    /// The counter for an encrypt event (active key id).
    pub fn record_encrypt(&self, kid: Option<&str>) -> (c: Counter)
        ensures
            c@ == self@.encrypt_counter(opt_str(kid)),
    {
        let mut labels: Vec<Label> = Vec::new();
        labels.push(Label::new("cookie", self.cookie_name()));
        labels.push(
            Label::new(
                "kid",
                match kid {
                    Some(k) => k,
                    None => "none",
                },
            ),
        );
        let c = emit_counter("huskarl.session_cookie.encrypt", labels, self.metrics_label());
        proof {
            assert(crate::metrics::label_texts(labels@) =~= seq![labels@[0]@, labels@[1]@]);
        }
        c
    }

    /// The counter for a decrypt outcome, bounding the client-supplied kid
    /// label via [`normalize_kid_label`].
    pub fn record_decrypt(
        &self,
        kid: Option<&str>,
        matches_key: bool,
        result: DecryptResult,
    ) -> (c: Counter)
        ensures
            c@ == self@.decrypt_counter(opt_str(kid), matches_key, result),
    {
        let label = normalize_kid_label(kid, matches_key);
        let mut labels: Vec<Label> = Vec::new();
        labels.push(Label::new("cookie", self.cookie_name()));
        labels.push(
            Label::new(
                "kid",
                match label {
                    Some(k) => k,
                    None => "none",
                },
            ),
        );
        labels.push(Label::new("outcome", result.as_str()));
        let c = emit_counter("huskarl.session_cookie.decrypt", labels, self.metrics_label());
        proof {
            assert(crate::metrics::label_texts(labels@) =~= seq![
                labels@[0]@,
                labels@[1]@,
                labels@[2]@,
            ]);
        }
        c
    }

    /// The instance `name` label for counters.
    pub fn metrics_label(&self) -> (name: Option<&str>)
        ensures
            opt_str(name) == self@.metrics_name,
    {
        match &self.metrics_name {
            Some(n) => Some(n.as_str()),
            None => None,
        }
    }
}

/// The name and the attributes of a sealer's cookies may stand in a header.
pub proof fn lemma_sealer_texts(sealer: SealerView)
    requires
        name_fault(sealer.name) is None,
        crate::config::route_fault(sealer.path) is None,
    ensures
        is_header_text(sealer.wire_name()),
        is_header_text(kid_name(sealer.wire_name())),
        is_header_text(sealer.base_attrs()),
        is_header_text(sealer.full_attrs()),
{
    reveal_strlit(".kid");
    reveal_strlit("; Max-Age=");
    lemma_url_safe_is_header_text(sealer.name);
    lemma_session_name_is_header_text(sealer.name, sealer.secure, sealer.path);
    lemma_header_text_joins(sealer.wire_name(), KID_COOKIE_SUFFIX@);
    lemma_attrs_are_header_text(sealer.secure, sealer.path);
    let secs = (sealer.max_age.nanos / 1_000_000_000) as nat;
    lemma_decimal_is_header_text(secs);
    lemma_header_text_joins(sealer.base_attrs(), "; Max-Age="@);
    lemma_header_text_joins(sealer.base_attrs() + "; Max-Age="@, decimal(secs));
}

// -- Laws of names and attributes --

/// What guards every cookie: scripts do not see it, cross-site requests do not
/// carry it, it is bound to its path, and to secure connections where there are
/// such.
pub open spec fn guarded(secure: bool, path: Seq<char>) -> Seq<char> {
    if secure {
        "HttpOnly; SameSite=Lax; Path="@ + path + "; Secure"@
    } else {
        "HttpOnly; SameSite=Lax; Path="@ + path
    }
}

/// The guards of a cookie are all its attributes say, beside its lifetime.
pub proof fn lemma_guards(secure: bool, path: Seq<char>)
    ensures
        attrs_for(secure, path) == guarded(secure, path),
{
    assert(attrs_for(secure, path) =~= guarded(secure, path));
}

/// What guards a session cookie, and how long it lives, in whole seconds.
pub open spec fn guarded_for_its_time(sealer: SealerView) -> Seq<char> {
    guarded(sealer.secure, sealer.path) + "; Max-Age="@ + decimal(
        (sealer.max_age.nanos / 1_000_000_000) as nat,
    )
}

/// Whether `name` begins with `prefix`, given in lower case, in any casing.
pub open spec fn begins_like(name: Seq<char>, prefix: Seq<char>) -> bool {
    &&& name.len() >= prefix.len()
    &&& forall|i: int|
        0 <= i < prefix.len() ==> {
            ||| #[trigger] name[i] == prefix[i]
            ||| 65 <= name[i] as int <= 90 && prefix[i] as int == name[i] as int + 32
        }
}

/// A cookie name without a security prefix: letters, digits, `_` and `-`, at
/// least one.
pub open spec fn is_bare_name(name: Seq<char>) -> bool {
    &&& name.len() > 0
    &&& forall|i: int|
        0 <= i < name.len() ==> {
            let c = #[trigger] name[i];
            ||| 'A' <= c <= 'Z'
            ||| 'a' <= c <= 'z'
            ||| '0' <= c <= '9'
            ||| c == '_'
            ||| c == '-'
        }
    &&& !begins_like(name, "__host-"@)
    &&& !begins_like(name, "__secure-"@)
}

proof fn lemma_begins_like(name: Seq<char>, prefix: Seq<char>)
    requires
        forall|i: int| 0 <= i < prefix.len() ==> !('A' <= #[trigger] prefix[i] <= 'Z'),
    ensures
        prefix.is_prefix_of(lowered(name)) <==> begins_like(name, prefix),
{
    if prefix.is_prefix_of(lowered(name)) {
        assert forall|i: int| 0 <= i < prefix.len() implies {
            ||| #[trigger] name[i] == prefix[i]
            ||| 65 <= name[i] as int <= 90 && prefix[i] as int == name[i] as int + 32
        } by {
            assert(prefix[i] == lowered(name).subrange(0, prefix.len() as int)[i]);
            assert(lowered(name)[i] == lower(name[i]));
        }
    } else if begins_like(name, prefix) {
        assert forall|i: int| 0 <= i < prefix.len() implies prefix[i] == lowered(name)[i] by {
            assert(lowered(name)[i] == lower(name[i]));
            assert(!('A' <= prefix[i] <= 'Z'));
            assert(name[i] == prefix[i] || 65 <= name[i] as int <= 90);
        }
        assert(prefix =~= lowered(name).subrange(0, prefix.len() as int));
    }
}

/// A name is rejected exactly when it is no bare name.
pub proof fn lemma_name_fault(name: Seq<char>)
    ensures
        name_fault(name) is None <==> is_bare_name(name),
{
    reveal_strlit("__host-");
    reveal_strlit("__secure-");
    lemma_begins_like(name, "__host-"@);
    lemma_begins_like(name, "__secure-"@);
    if all_url_safe(name) {
        assert forall|i: int| 0 <= i < name.len() implies {
            let c = #[trigger] name[i];
            ||| 'A' <= c <= 'Z'
            ||| 'a' <= c <= 'z'
            ||| '0' <= c <= '9'
            ||| c == '_'
            ||| c == '-'
        } by {
            assert(is_base64url_char(name[i]));
        }
    } else if is_bare_name(name) {
        assert forall|i: int| 0 <= i < name.len() implies is_base64url_char(#[trigger] name[i]) by {
        }
    }
}

/// A cookie name is accepted exactly when it is a bare one, and kept as it is.
pub proof fn law_bare_names_are_accepted(name: &str, r: Result<CookieName, InvalidCookieName>)
    requires
        call_ensures(CookieName::new, (name,), r),
    ensures
        r is Ok <==> is_bare_name(name@),
        r matches Ok(n) ==> n@ == name@,
        r matches Err(e) ==> e.name@ == name@,
{
    lemma_name_fault(name@);
}

/// An OAuth `state` is accepted exactly when it has 1 to 256 characters, all of
/// them letters, digits, `-` or `_`.
pub proof fn law_plain_states_are_accepted(state: &str, r: bool)
    requires
        call_ensures(is_valid_oauth_state, (state,), r),
    ensures
        r <==> 1 <= state@.len() <= 256 && forall|i: int|
            0 <= i < state@.len() ==> {
                let c = #[trigger] state@[i];
                ||| 'A' <= c <= 'Z'
                ||| 'a' <= c <= 'z'
                ||| '0' <= c <= '9'
                ||| c == '-'
                ||| c == '_'
            },
        r == valid_state(state@),
{
    if r {
        assert forall|i: int| 0 <= i < state@.len() implies {
            let c = #[trigger] state@[i];
            ||| 'A' <= c <= 'Z'
            ||| 'a' <= c <= 'z'
            ||| '0' <= c <= '9'
            ||| c == '-'
            ||| c == '_'
        } by {
            assert(is_base64url_char(state@[i]));
        }
    } else if 1 <= state@.len() <= 256 && forall|i: int|
        0 <= i < state@.len() ==> {
            let c = #[trigger] state@[i];
            ||| 'A' <= c <= 'Z'
            ||| 'a' <= c <= 'z'
            ||| '0' <= c <= '9'
            ||| c == '-'
            ||| c == '_'
        } {
        assert forall|i: int| 0 <= i < state@.len() implies is_base64url_char(
            #[trigger] state@[i],
        ) by {}
    }
}

/// A cookie is named as the deployment allows: with `__Host-` where it is secure
/// and host-wide, with `__Secure-` where it is secure, bare otherwise. The name
/// of a login-state cookie is the configured one, an underscore and the state.
pub proof fn law_names_carry_the_derived_prefix(
    name: &str,
    secure: bool,
    path: &str,
    state: &str,
    wire: String,
    login: String,
)
    requires
        valid_state(state@),
        call_ensures(session_cookie_name, (name, secure, path), wire),
        call_ensures(login_state_cookie_name, (state, secure, path, name), login),
    ensures
        secure && path@ == "/"@ ==> wire@ == "__Host-"@ + name@,
        secure && path@ != "/"@ ==> wire@ == "__Secure-"@ + name@,
        !secure ==> wire@ == name@,
        login@ == wire@ + "_"@ + state@,
        wire@ == session_name(name@, secure, path@),
{
    if !secure {
        assert(Seq::<char>::empty() + name@ =~= name@);
    }
}

/// Every cookie is kept from scripts and from cross-site requests, bound to its
/// path, and to secure connections exactly where the deployment is secure.
pub proof fn law_cookies_are_guarded(secure: bool, path: &str, attrs: String)
    requires
        call_ensures(cookie_attrs, (secure, path), attrs),
    ensures
        ("HttpOnly; SameSite=Lax; Path="@ + path@).is_prefix_of(attrs@),
        secure ==> "; Secure"@.is_suffix_of(attrs@),
        secure ==> attrs@.len() == "HttpOnly; SameSite=Lax; Path="@.len() + path@.len()
            + "; Secure"@.len(),
        !secure ==> attrs@.len() == "HttpOnly; SameSite=Lax; Path="@.len() + path@.len(),
        attrs@ == guarded(secure, path@),
{
    lemma_guards(secure, path@);
    let head = "HttpOnly; SameSite=Lax; Path="@ + path@;
    assert(attrs@.subrange(0, head.len() as int) =~= head);
    if secure {
        assert(attrs@.subrange(attrs@.len() - "; Secure"@.len(), attrs@.len() as int)
            =~= "; Secure"@);
    }
}

/// A sealer's cookies carry its attributes and its lifetime in whole seconds,
/// and what it seals is bound to its purpose and its name.
pub proof fn law_sealer_binds_its_cookies(
    sealer: CookieSealer,
    purpose: &str,
    base: String,
    full: String,
    aad: Vec<u8>,
    wire: &str,
)
    requires
        call_ensures(CookieSealer::base_cookie_attrs, (&sealer,), base),
        call_ensures(CookieSealer::cookie_attrs, (&sealer,), full),
        call_ensures(CookieSealer::aad, (&sealer, purpose), aad),
        call_ensures(CookieSealer::cookie_name, (&sealer,), wire),
    ensures
        full@ == base@ + "; Max-Age="@ + decimal(
            (sealer@.max_age.nanos / 1_000_000_000) as nat,
        ),
        ("HttpOnly; SameSite=Lax; Path="@ + sealer@.path).is_prefix_of(base@),
        sealer@.secure <==> base@.len() > "HttpOnly; SameSite=Lax; Path="@.len()
            + sealer@.path.len(),
        aad@ == encode_utf8(purpose@ + ":"@ + wire@),
        sealer@.secure && sealer@.path == "/"@ ==> wire@ == "__Host-"@ + sealer@.name,
        sealer@.secure && sealer@.path != "/"@ ==> wire@ == "__Secure-"@ + sealer@.name,
        !sealer@.secure ==> wire@ == sealer@.name,
{
    reveal_strlit("; Secure");
    let head = "HttpOnly; SameSite=Lax; Path="@ + sealer@.path;
    assert(base@.subrange(0, head.len() as int) =~= head);
    if !sealer@.secure {
        assert(Seq::<char>::empty() + sealer@.name =~= sealer@.name);
    }
}

// -- Laws of reading cookies --

proof fn lemma_pairs_append(a: Seq<Seq<char>>, b: Seq<Seq<char>>)
    ensures
        pairs_of_segments(a + b) == pairs_of_segments(a) + pairs_of_segments(b),
    decreases b.len(),
{
    if b.len() == 0 {
        assert(a + b =~= a);
        assert(pairs_of_segments(a) + Seq::<(Seq<char>, Seq<char>)>::empty()
            =~= pairs_of_segments(a));
    } else {
        lemma_pairs_append(a, b.drop_last());
        assert((a + b).drop_last() =~= a + b.drop_last());
        assert((a + b).last() == b.last());
        if let Some(pair) = pair_in(b.last()) {
            assert((pairs_of_segments(a) + pairs_of_segments(b.drop_last())).push(pair)
                =~= pairs_of_segments(a) + pairs_of_segments(b.drop_last()).push(pair));
        }
    }
}

/// A `Cookie` header is read segment by segment: what stands on both sides of a
/// semicolon is read on its own, one after the other. A segment holds the cookie
/// before and behind its first `=`, without the blanks around them.
pub proof fn law_cookie_header_is_read_in_order(
    a: Seq<char>,
    b: Seq<char>,
    name: Seq<char>,
    value: Seq<char>,
)
    ensures
        pairs_in(a.push(';') + b) == pairs_in(a) + pairs_in(b),
        !name.contains(';') && !value.contains(';') && !name.contains('=') && name.len() > 0
            && !crate::text::is_blank(name[0]) && !crate::text::is_blank(name.last()) && (
        value.len() == 0 || (!crate::text::is_blank(value[0]) && !crate::text::is_blank(
            value.last(),
        ))) ==> pairs_in(name.push('=') + value) == seq![(name, value)],
        !name.contains(';') && !name.contains('=') ==> pairs_in(name).len() == 0,
{
    crate::text::law_split_takes_apart(a, ';', b);
    lemma_pairs_append(crate::text::pieces(a, ';'), crate::text::pieces(b, ';'));
    let segment = name.push('=') + value;
    if !name.contains(';') && !value.contains(';') && !name.contains('=') && name.len() > 0
        && !crate::text::is_blank(name[0]) && !crate::text::is_blank(name.last()) && (value.len()
        == 0 || (!crate::text::is_blank(value[0]) && !crate::text::is_blank(value.last()))) {
        assert(!segment.contains(';')) by {
            if segment.contains(';') {
                let k = choose|k: int| 0 <= k < segment.len() && segment[k] == ';';
                if k < name.len() {
                    assert(name.contains(name[k]));
                } else if k > name.len() {
                    assert(value.contains(value[k - name.len() - 1]));
                }
            }
        }
        crate::text::law_split_takes_apart(segment, ';', Seq::empty());
        assert(segment[0] == name[0]);
        assert(trimmed(segment) == segment);
        let n = name.len() as int;
        assert forall|k: int| 0 <= k < n implies segment[k] != '=' by {
            assert(name.contains(name[k]));
        }
        crate::text::lemma_halves_at(segment, '=', n);
        assert(segment.take(n) =~= name);
        assert(segment.skip(n + 1) =~= value);
        assert(trimmed(name) == name);
        assert(trimmed(value) == value);
        assert(pairs_of_segments(seq![segment].drop_last()) =~= Seq::<
            (Seq<char>, Seq<char>),
        >::empty()) by {
            assert(seq![segment].drop_last() =~= Seq::<Seq<char>>::empty());
        }
        assert(pairs_of_segments(seq![segment]) =~= seq![(name, value)]);
    }
    if !name.contains(';') && !name.contains('=') {
        crate::text::law_split_takes_apart(name, ';', Seq::empty());
        crate::text::lemma_trimmed_within(name);
        assert forall|k: int| 0 <= k < trimmed(name).len() implies trimmed(name)[k] != '=' by {
            assert(name.contains(trimmed(name)[k]));
        }
        crate::text::lemma_halves_none(trimmed(name), '=');
        assert(seq![name].drop_last() =~= Seq::<Seq<char>>::empty());
        assert(pairs_of_segments(seq![name].drop_last()).len() == 0);
    }
}

/// Several `Cookie` headers are read one after the other; one that is no
/// readable text is passed over.
pub proof fn law_cookie_headers_follow_each_other(values: Seq<Seq<u8>>, more: Seq<u8>)
    ensures
        text_of(more) matches Some(text) ==> pairs_of_values(values.push(more)) == pairs_of_values(
            values,
        ) + pairs_in(text),
        text_of(more) is None ==> pairs_of_values(values.push(more)) == pairs_of_values(values),
        pairs_of_values(Seq::empty()).len() == 0,
{
    assert(values.push(more).drop_last() =~= values);
}

/// The cookies of a request are those of its `Cookie` headers.
pub proof fn law_request_cookies_are_its_headers(headers: HeaderMap, pairs: Vec<(String, String)>)
    requires
        call_ensures(cookie_pairs, (&headers,), pairs),
    ensures
        pair_texts(pairs@) == pairs_of_values(values_of(headers, "cookie"@)),
{
}

/// A cookie is read by its name, and of several of one name the first counts.
pub proof fn law_first_cookie_counts(
    headers: HeaderMap,
    name: &str,
    at: int,
    value: Option<String>,
)
    requires
        call_ensures(get_cookie, (&headers, name), value),
    ensures
        value is None <==> forall|i: int|
            0 <= i < request_cookies(headers).len() ==> (#[trigger] request_cookies(headers)[i]).0
                != name@,
        0 <= at < request_cookies(headers).len() && request_cookies(headers)[at].0 == name@ && (
        forall|k: int| 0 <= k < at ==> (#[trigger] request_cookies(headers)[k]).0 != name@)
            ==> value is Some && value->0@ == request_cookies(headers)[at].1,
{
    let pairs = request_cookies(headers);
    if forall|i: int| 0 <= i < pairs.len() ==> (#[trigger] pairs[i]).0 != name@ {
        lemma_value_named_none(pairs, name@);
    } else {
        lemma_first_named(pairs, name@);
    }
    if 0 <= at < pairs.len() && pairs[at].0 == name@ && (forall|k: int|
        0 <= k < at ==> (#[trigger] pairs[k]).0 != name@) {
        lemma_value_named_at(pairs, name@, at);
    }
}

/// An unseal ends with what the hinted key opened, where it did, and else with
/// what any key opened; the hint is followed first where there is one, and a
/// failed hint is never the end.
pub proof fn law_hint_comes_first(
    has_hint: bool,
    first: UnsealAttempt,
    hinted: Option<Seq<u8>>,
    any: Option<Seq<u8>>,
    opened: bool,
    after_hint: UnsealStep,
    after_all: UnsealStep,
)
    requires
        call_ensures(first_unseal, (has_hint,), first),
        call_ensures(unseal_with_kid_fallback, (UnsealAttempt::Hinted, opened), after_hint),
        call_ensures(unseal_with_kid_fallback, (UnsealAttempt::AllKeys, opened), after_all),
    ensures
        first is Hinted <==> has_hint,
        opened ==> after_hint is Authentic && after_all is Authentic,
        !opened ==> after_hint == UnsealStep::Try(UnsealAttempt::AllKeys) && after_all is Failed,
        has_hint && hinted is Some ==> unsealed(hinted, any, has_hint) == hinted,
        !has_hint || hinted is None ==> unsealed(hinted, any, has_hint) == any,
{
}

/// A client's key identity is reported only where a configured key has it.
pub proof fn law_only_known_kids_are_reported(
    kid: Option<&str>,
    matches_key: bool,
    label: Option<&str>,
)
    requires
        call_ensures(normalize_kid_label, (kid, matches_key), label),
    ensures
        label is Some <==> kid is Some,
        kid matches Some(k) ==> (matches_key ==> label->0@ == k@),
        kid is Some && !matches_key ==> label->0@ == "unknown"@,
        opt_str(label) == kid_label(opt_str(kid), matches_key),
{
}

/// The key identity of a request is what its sidecar cookie encodes; anything
/// else there names no key.
pub proof fn law_kid_is_read_from_its_sidecar(
    headers: HeaderMap,
    base_name: &str,
    name: String,
    name_text: &str,
    cookie: Option<String>,
    kid: Option<String>,
)
    requires
        call_ensures(get_kid_cookie, (&headers, base_name), kid),
        call_ensures(kid_cookie_name, (base_name,), name),
        name_text@ == name@,
        call_ensures(get_cookie, (&headers, name_text), cookie),
    ensures
        name@ == base_name@ + ".kid"@,
        cookie is None ==> kid is None,
        cookie matches Some(text) ==> {
            &&& kid is Some <==> base64url_bytes(text@) is Some && vstd::utf8::valid_utf8(
                base64url_bytes(text@)->0,
            )
            &&& kid matches Some(k) ==> k@ == vstd::utf8::decode_utf8(base64url_bytes(text@)->0)
        },
{
}

/// A sealed and an opened cookie are counted under their wire name and key
/// identity, and an opened one under how it went.
pub proof fn law_sealing_is_counted(
    sealer: CookieSealer,
    kid: Option<&str>,
    matches_key: bool,
    result: DecryptResult,
    label: Option<&str>,
    sealed: Counter,
    opened: Counter,
)
    requires
        call_ensures(CookieSealer::record_encrypt, (&sealer, kid), sealed),
        call_ensures(CookieSealer::record_decrypt, (&sealer, kid, matches_key, result), opened),
        call_ensures(normalize_kid_label, (kid, matches_key), label),
    ensures
        sealed@.name == "huskarl.session_cookie.encrypt"@,
        sealed@.labels[0] == ("cookie"@, sealer@.wire_name()),
        sealed@.labels[1] == (
            "kid"@,
            if kid is Some {
                kid->0@
            } else {
                "none"@
            },
        ),
        opened@.name == "huskarl.session_cookie.decrypt"@,
        opened@.labels[0] == ("cookie"@, sealer@.wire_name()),
        opened@.labels[1] == (
            "kid"@,
            if label is Some {
                label->0@
            } else {
                "none"@
            },
        ),
        opened@.labels[2] == (
            "outcome"@,
            match result {
                DecryptResult::Success => "ok"@,
                DecryptResult::BadEncoding => "bad_encoding"@,
                DecryptResult::DecryptFailed => "decrypt_failed"@,
                DecryptResult::PayloadInvalid => "payload_invalid"@,
            },
        ),
        sealer@.metrics_name is None ==> sealed@.labels.len() == 2 && opened@.labels.len() == 3,
        sealer@.metrics_name matches Some(n) ==> {
            &&& sealed@.labels.len() == 3 && sealed@.labels[2] == ("name"@, n)
            &&& opened@.labels.len() == 4 && opened@.labels[3] == ("name"@, n)
        },
{
}

/// A sealer's settings change one at a time: its security, its lifetime
/// downwards only, its instance name.
pub proof fn law_sealer_settings_change_alone(
    sealer: &mut CookieSealer,
    clamped: &mut CookieSealer,
    named: &mut CookieSealer,
    secure: bool,
    limit: Duration,
    metrics_name: Option<&str>,
)
    requires
        call_ensures(CookieSealer::apply_secure, (sealer, secure), ()),
        call_ensures(CookieSealer::clamp_max_age, (clamped, limit), ()),
        call_ensures(CookieSealer::set_metrics_name, (named, metrics_name), ()),
    ensures
        final(sealer)@ == (SealerView { secure, ..old(sealer)@ }),
        final(clamped)@.max_age.nanos <= limit.nanos,
        final(clamped)@.max_age == limit || final(clamped)@.max_age == old(clamped)@.max_age,
        final(clamped)@.max_age.nanos <= old(clamped)@.max_age.nanos,
        final(clamped)@ == (SealerView { max_age: final(clamped)@.max_age, ..old(clamped)@ }),
        final(named)@ == (SealerView { metrics_name: opt_str(metrics_name), ..old(named)@ }),
{
}

/// A cookie set is its name and value and its attributes; a cookie cleared is
/// its name without a value, its attributes, and no time to live.
pub proof fn law_set_cookie_texts(name: &str, value: &str, attrs: &str, set: String, clear: String)
    requires
        call_ensures(set_cookie_text, (name, value, attrs), set),
        call_ensures(clear_cookie_text, (name, attrs), clear),
    ensures
        (name@ + "="@ + value@ + "; "@).is_prefix_of(set@),
        attrs@.is_suffix_of(set@),
        set@.len() == name@.len() + "="@.len() + value@.len() + "; "@.len() + attrs@.len(),
        (name@ + "=; "@ + attrs@).is_prefix_of(clear@),
        "; Max-Age=0"@.is_suffix_of(clear@),
        clear@.len() == name@.len() + "=; "@.len() + attrs@.len() + "; Max-Age=0"@.len(),
{
    lemma_set_cookie_begins(name@, value@, attrs@);
    lemma_clear_cookie_ends(name@, attrs@);
}

/// A sweep names exactly the cookies of the request that are named after a flow,
/// each once.
pub proof fn law_sweep_names_the_flows(
    headers: HeaderMap,
    prefix: &str,
    state: Seq<char>,
    name: Seq<char>,
    names: Vec<String>,
)
    requires
        call_ensures(login_state_cookie_names, (&headers, prefix), names),
    ensures
        valid_state(state) && (exists|i: int|
            0 <= i < request_cookies(headers).len() && (#[trigger] request_cookies(headers)[i]).0
                == prefix@ + state) ==> texts(names@).contains(prefix@ + state),
        texts(names@).contains(name) ==> {
            &&& prefix@.is_prefix_of(name)
            &&& valid_state(name.skip(prefix@.len() as int))
            &&& exists|i: int|
                0 <= i < request_cookies(headers).len() && (#[trigger] request_cookies(
                    headers,
                )[i]).0 == name
        },
        texts(names@).no_duplicates(),
{
    law_login_names_are_the_login_cookies(request_cookies(headers), prefix@);
    let whole = prefix@ + state;
    assert(whole.subrange(0, prefix@.len() as int) =~= prefix@);
    assert(whole.skip(prefix@.len() as int) =~= state);
    if valid_state(state) {
        assert(is_login_name(whole, prefix@));
        assert(login_names(request_cookies(headers), prefix@).contains(whole) <==> is_login_name(
            whole,
            prefix@,
        ) && exists|i: int|
            0 <= i < request_cookies(headers).len() && (#[trigger] request_cookies(headers)[i]).0
                == whole);
    }
}

/// However a cookie name is made of a text, it is accepted alike.
pub proof fn law_names_convert_as_they_are_made(
    name: &str,
    owned: String,
    tried: Result<CookieName, InvalidCookieName>,
    tried_owned: Result<CookieName, InvalidCookieName>,
)
    requires
        owned@ == name@,
        call_ensures(<CookieName as TryFrom<&str>>::try_from, (name,), tried),
        call_ensures(<CookieName as TryFrom<String>>::try_from, (owned,), tried_owned),
    ensures
        tried is Ok <==> is_bare_name(name@),
        tried_owned is Ok <==> is_bare_name(name@),
        tried is Ok ==> tried->Ok_0@ == name@ && tried_owned->Ok_0@ == name@,
{
    lemma_name_fault(name@);
}

/// A key identity survives its sidecar: what is encoded decodes to it.
pub proof fn law_kid_survives_its_sidecar(
    identity: &str,
    encoded: String,
    encoded_text: &str,
    decoded: Option<String>,
)
    requires
        base64_len(encode_utf8(identity@).len()) <= isize::MAX,
        call_ensures(encode_kid, (identity,), encoded),
        encoded_text@ == encoded@,
        call_ensures(decode_kid, (encoded_text,), decoded),
    ensures
        decoded is Some,
        decoded->0@ == identity@,
{
}

/// The prefix of a cookie name follows from the deployment alone.
pub proof fn law_prefix_follows_from_the_deployment(secure: bool, path: &str, p: &'static str)
    requires
        call_ensures(security_prefix, (secure, path), p),
    ensures
        !secure ==> p@.len() == 0,
        secure && path@ == "/"@ ==> p@ == "__Host-"@,
        secure && path@ != "/"@ ==> p@ == "__Secure-"@,
{
}

/// A segment of a `Cookie` header is read as it is taken apart: trimmed, split
/// at its first `=`, and both sides trimmed; one without `=` holds no cookie.
pub proof fn law_segment_is_taken_apart(
    segment: &str,
    inner: String,
    inner_text: &str,
    sides: Option<(String, String)>,
    left: &str,
    right: &str,
    name: String,
    value: String,
)
    requires
        call_ensures(trim, (segment,), inner),
        inner_text@ == inner@,
        call_ensures(split_once, (inner_text, '='), sides),
        sides matches Some((l, r)) ==> left@ == l@ && right@ == r@,
        call_ensures(trim, (left,), name),
        call_ensures(trim, (right,), value),
    ensures
        sides is Some ==> pair_in(segment@) == Some((name@, value@)),
        sides is None ==> pair_in(segment@) is None,
{
}

} // verus!
