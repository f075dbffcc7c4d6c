//! The OAuth callback: from the query string and the login-state cookie to a
//! new session.
//!
//! Opening the cookie, exchanging the code and creating the session are the
//! caller's; each function here takes what came of it.

use http::HeaderMap;
use vstd::prelude::*;
use vstd::utf8::{encode_utf8, encode_utf8_decode_utf8};

use crate::codec::{base64url, base64url_bytes, decode_base64url, decode_form, form_pairs, pair_texts};
use crate::config::{LoginConfig, SessionLifetime};
use crate::cookie::{
    attrs_for, clear_cookie, clear_cookie_text, cookie_attrs, get_cookie, is_login_name,
    is_valid_oauth_state, lemma_attrs_are_header_text, lemma_header_text_joins,
    lemma_session_name_is_header_text, lemma_set_cookie_is_header_text,
    lemma_url_safe_is_header_text, login_name_prefix, login_names, login_state_cookie_name,
    login_state_cookie_name_prefix, login_state_cookie_names, name_fault, request_cookies,
    session_name, valid_state, value_named, SealerView,
};
use crate::engine::base::{login_complete_counter, LoginEngine};
use crate::engine::load::{
    is_too_far_future, teardown_for, too_far_future, MAX_CLOCK_SKEW_NANOS,
};
use crate::engine::response::{
    plain_error, redirect_headers, ErrorReply, ErrorView, LoginResponse, Reply, ResponseView,
};
use crate::headers::{is_header_text, is_header_value};
use crate::metrics::{normal_as_error, normalize_as_error, Counter, LoginCompleteResult};
use crate::session_state::SessionState;
use crate::text::{opt_str, opt_text, same_text, texts};
use crate::time::{Duration, Timestamp};

verus! {

// -- Associated data --

/// The associated data of a login-state cookie, as text.
pub open spec fn login_aad(state: Seq<char>) -> Seq<char> {
    "login_state:"@ + state
}

/// AEAD associated data for the login-state cookie: `"login_state:{state}"`.
/// The `login_state:` prefix domain-separates this seal from the session seals
/// (`"session:{name}"` / `"session_ptr:{name}"`) by construction, so a shared
/// AEAD key can never confuse the two.
pub fn login_state_aad(state: &str) -> (aad: Vec<u8>)
    ensures
        aad@ == encode_utf8(login_aad(state@)),
{
    let mut s = "login_state:".to_owned();
    s.append(state);
    vstd::slice::slice_to_vec(s.as_str().as_bytes())
}

/// A value sealed for one purpose opens for no other: the associated data of a
/// cookie session, a pointer and a login state never coincide, whatever the
/// cookie names and the `state`.
pub proof fn law_seal_domains_are_separate(a: SealerView, b: SealerView, state: Seq<char>)
    ensures
        encode_utf8(a.aad("session"@)) != encode_utf8(b.aad("session_ptr"@)),
        encode_utf8(a.aad("session"@)) != encode_utf8(login_aad(state)),
        encode_utf8(a.aad("session_ptr"@)) != encode_utf8(login_aad(state)),
{
    reveal_strlit("session");
    reveal_strlit("session_ptr");
    reveal_strlit("login_state:");
    reveal_strlit(":");
    encode_utf8_decode_utf8(a.aad("session"@));
    encode_utf8_decode_utf8(a.aad("session_ptr"@));
    encode_utf8_decode_utf8(b.aad("session_ptr"@));
    encode_utf8_decode_utf8(login_aad(state));
    assert(a.aad("session"@)[7] == ':');
    assert(b.aad("session_ptr"@)[7] == '_');
    assert(a.aad("session"@)[0] == 's');
    assert(a.aad("session_ptr"@)[0] == 's');
    assert(login_aad(state)[0] == 'l');
}

/// A sealed session is bound to its cookie name, and a login state to its
/// `state`: under any other the associated data differs.
pub proof fn law_seals_are_bound_to_their_slot(
    a: SealerView,
    b: SealerView,
    purpose: Seq<char>,
    state: Seq<char>,
    other: Seq<char>,
)
    ensures
        a.wire_name() != b.wire_name() ==> encode_utf8(a.aad(purpose)) != encode_utf8(
            b.aad(purpose),
        ),
        state != other ==> encode_utf8(login_aad(state)) != encode_utf8(login_aad(other)),
{
    encode_utf8_decode_utf8(a.aad(purpose));
    encode_utf8_decode_utf8(b.aad(purpose));
    encode_utf8_decode_utf8(login_aad(state));
    encode_utf8_decode_utf8(login_aad(other));
    let n = (purpose + ":"@).len() as int;
    assert(a.aad(purpose).skip(n) =~= a.wire_name());
    assert(b.aad(purpose).skip(n) =~= b.wire_name());
    let k = "login_state:"@.len() as int;
    assert(login_aad(state).skip(k) =~= state);
    assert(login_aad(other).skip(k) =~= other);
}

// -- The query string --

/// Outcome of parsing the callback query string.
#[derive(Debug, PartialEq, Eq)]
pub enum CallbackParse {
    /// Valid OAuth response: code + state present (and optional `iss`).
    Valid {
        /// The authorization code.
        code: String,
        /// The flow's `state`.
        state: String,
        /// The issuer, if the server names it.
        iss: Option<String>,
    },
    /// Authorization server returned an error response per RFC 6749 §4.1.2.1.
    AuthServerError {
        /// The error code.
        error: String,
        /// What the server says about it.
        description: Option<String>,
    },
    /// Neither error nor a usable code/state pair was provided.
    Missing,
}

/// What a callback says.
#[verifier::ext_equal]
pub enum CallbackView {
    /// Code, state, and issuer.
    Valid(Seq<char>, Seq<char>, Option<Seq<char>>),
    /// Error code and description.
    AuthServerError(Seq<char>, Option<Seq<char>>),
    /// Nothing usable.
    Missing,
}

impl View for CallbackParse {
    type V = CallbackView;

    open spec fn view(&self) -> CallbackView {
        match self {
            CallbackParse::Valid { code, state, iss } => CallbackView::Valid(
                code@,
                state@,
                opt_text(*iss),
            ),
            CallbackParse::AuthServerError { error, description } =>
                CallbackView::AuthServerError(error@, opt_text(*description)),
            CallbackParse::Missing => CallbackView::Missing,
        }
    }
}

/// How often a parameter occurs.
pub open spec fn occurrences(pairs: Seq<(Seq<char>, Seq<char>)>, name: Seq<char>) -> nat
    decreases pairs.len(),
{
    if pairs.len() == 0 {
        0
    } else {
        occurrences(pairs.drop_last(), name) + (if pairs.last().0 == name {
            1nat
        } else {
            0nat
        })
    }
}

/// Whether no parameter of a callback is given twice.
pub open spec fn is_unambiguous(pairs: Seq<(Seq<char>, Seq<char>)>) -> bool {
    &&& occurrences(pairs, "code"@) <= 1
    &&& occurrences(pairs, "state"@) <= 1
    &&& occurrences(pairs, "iss"@) <= 1
    &&& occurrences(pairs, "error"@) <= 1
    &&& occurrences(pairs, "error_description"@) <= 1
}

/// What the parameters of a callback say: an error takes priority; a code
/// needs a valid state; a repeated parameter voids them all.
pub open spec fn callback_in(pairs: Seq<(Seq<char>, Seq<char>)>) -> CallbackView {
    if !is_unambiguous(pairs) {
        CallbackView::Missing
    } else {
        match value_named(pairs, "error"@) {
            Some(error) => CallbackView::AuthServerError(
                error,
                value_named(pairs, "error_description"@),
            ),
            None => match (value_named(pairs, "code"@), value_named(pairs, "state"@)) {
                (Some(code), Some(state)) => if valid_state(state) {
                    CallbackView::Valid(code, state, value_named(pairs, "iss"@))
                } else {
                    CallbackView::Missing
                },
                _ => CallbackView::Missing,
            },
        }
    }
}

/// What a callback's query string says; a malformed one says nothing.
pub open spec fn callback_of(query: Seq<char>) -> CallbackView {
    match form_pairs(query) {
        Some(pairs) => callback_in(pairs),
        None => CallbackView::Missing,
    }
}

fn count_param(pairs: &Vec<(String, String)>, name: &str) -> (n: usize)
    ensures
        n == occurrences(pair_texts(pairs@), name@),
{
    let ghost all = pair_texts(pairs@);
    let mut n: usize = 0;
    let mut i: usize = 0;
    proof {
        assert(all.take(0) =~= Seq::<(Seq<char>, Seq<char>)>::empty());
    }
    while i < pairs.len()
        invariant
            i <= pairs@.len(),
            all == pair_texts(pairs@),
            n <= i,
            n == occurrences(all.take(i as int), name@),
        decreases pairs@.len() - i,
    {
        proof {
            assert(all.take(i + 1).drop_last() =~= all.take(i as int));
            assert(all.take(i + 1).last() == (pairs@[i as int].0@, pairs@[i as int].1@));
        }
        if same_text(pairs[i].0.as_str(), name) {
            n = n + 1;
        }
        i = i + 1;
    }
    proof {
        assert(all.take(all.len() as int) =~= all);
    }
    n
}

fn find_param(pairs: &Vec<(String, String)>, name: &str) -> (value: Option<String>)
    ensures
        opt_text(value) == value_named(pair_texts(pairs@), name@),
{
    let ghost all = pair_texts(pairs@);
    let mut i: usize = 0;
    while i < pairs.len()
        invariant
            i <= pairs@.len(),
            all == pair_texts(pairs@),
            forall|k: int| 0 <= k < i ==> (#[trigger] all[k]).0 != name@,
        decreases pairs@.len() - i,
    {
        proof {
            assert(all[i as int] == (pairs@[i as int].0@, pairs@[i as int].1@));
        }
        if same_text(pairs[i].0.as_str(), name) {
            proof {
                crate::cookie::lemma_value_named_at(all, name@, i as int);
            }
            return Some(pairs[i].1.clone());
        }
        i = i + 1;
    }
    proof {
        crate::cookie::lemma_value_named_none(all, name@);
    }
    None
}

/// Reads the parameters of a callback.
pub fn callback_params(pairs: &Vec<(String, String)>) -> (r: CallbackParse)
    ensures
        r@ == callback_in(pair_texts(pairs@)),
{
    if count_param(pairs, "code") > 1 || count_param(pairs, "state") > 1 || count_param(
        pairs,
        "iss",
    ) > 1 || count_param(pairs, "error") > 1 || count_param(pairs, "error_description") > 1 {
        return CallbackParse::Missing;
    }
    if let Some(error) = find_param(pairs, "error") {
        return CallbackParse::AuthServerError {
            error,
            description: find_param(pairs, "error_description"),
        };
    }
    match (find_param(pairs, "code"), find_param(pairs, "state")) {
        (Some(code), Some(state)) => if is_valid_oauth_state(state.as_str()) {
            CallbackParse::Valid { code, state, iss: find_param(pairs, "iss") }
        } else {
            CallbackParse::Missing
        },
        _ => CallbackParse::Missing,
    }
}

/// Parses the callback query string. Treats a malformed query string the same
/// as missing parameters.
pub fn parse_callback_params(query: &str) -> (r: CallbackParse)
    ensures
        r@ == callback_of(query@),
{
    match decode_form(query) {
        Some(pairs) => callback_params(&pairs),
        None => CallbackParse::Missing,
    }
}

// -- The flow --

/// The login-state cookie name of a flow.
pub open spec fn flow_cookie(config: LoginConfig, state: Seq<char>) -> Seq<char> {
    flow_prefix(config) + state
}

/// What the names of all login-state cookies begin with.
pub open spec fn flow_prefix(config: LoginConfig) -> Seq<char> {
    login_name_prefix(
        config.secure,
        config.browser_callback_path@,
        config.login_cookie_prefix@,
    )
}

/// The attributes of the login-state cookies.
pub open spec fn flow_attrs(config: LoginConfig) -> Seq<char> {
    attrs_for(config.secure, config.browser_callback_path@)
}

/// What looking for the login-state cookie of a callback finds.
#[verifier::ext_equal]
pub enum FoundState {
    /// No cookie for the flow.
    Absent,
    /// A cookie that is no base64url.
    Malformed,
    /// A sealed bundle, to be opened.
    Sealed(Seq<u8>),
}

/// What looking for the login-state cookie of the flow `state` finds.
pub open spec fn found_state(
    config: LoginConfig,
    pairs: Seq<(Seq<char>, Seq<char>)>,
    state: Seq<char>,
) -> FoundState {
    match value_named(pairs, flow_cookie(config, state)) {
        None => FoundState::Absent,
        Some(text) => match base64url_bytes(text) {
            None => FoundState::Malformed,
            Some(bundle) => FoundState::Sealed(bundle),
        },
    }
}

/// The login state kept by a cookie is what the callback of its flow opens, as
/// long as the browser sends no other cookie of that name before it.
pub proof fn law_login_state_is_found(
    config: LoginConfig,
    state: Seq<char>,
    bundle: Seq<u8>,
    pairs: Seq<(Seq<char>, Seq<char>)>,
    at: int,
)
    requires
        base64url_bytes(base64url(bundle)) == Some(bundle),
        0 <= at < pairs.len(),
        pairs[at] == (flow_cookie(config, state), base64url(bundle)),
        forall|k: int| 0 <= k < at ==> (#[trigger] pairs[k]).0 != flow_cookie(config, state),
    ensures
        found_state(config, pairs, state) == FoundState::Sealed(bundle),
{
    crate::cookie::lemma_value_named_at(pairs, flow_cookie(config, state), at);
}

/// A callback whose login-state cookie is present.
pub struct CallbackFlow {
    code: String,
    state: String,
    iss: Option<String>,
    cookie_name: String,
}

/// The parts of a [`CallbackFlow`].
#[verifier::ext_equal]
pub struct FlowView {
    /// The authorization code.
    pub code: Seq<char>,
    /// The flow's `state`.
    pub state: Seq<char>,
    /// The issuer, if the server names it.
    pub iss: Option<Seq<char>>,
    /// The name of the login-state cookie.
    pub cookie_name: Seq<char>,
}

impl View for CallbackFlow {
    type V = FlowView;

    closed spec fn view(&self) -> FlowView {
        FlowView {
            code: self.code@,
            state: self.state@,
            iss: opt_text(self.iss),
            cookie_name: self.cookie_name@,
        }
    }
}

impl CallbackFlow {
    #[verifier::type_invariant]
    spec fn well_formed(self) -> bool {
        is_header_text(self.cookie_name@)
    }

    /// The authorization code.
    pub fn code(&self) -> (s: &str)
        ensures
            s@ == self@.code,
    {
        self.code.as_str()
    }

    /// The flow's `state`.
    pub fn state(&self) -> (s: &str)
        ensures
            s@ == self@.state,
    {
        self.state.as_str()
    }

    /// The issuer, if the server names it.
    pub fn iss(&self) -> (s: Option<&str>)
        ensures
            opt_str(s) == self@.iss,
    {
        match &self.iss {
            Some(s) => Some(s.as_str()),
            None => None,
        }
    }

    /// The name of the login-state cookie.
    pub fn cookie_name(&self) -> (s: &str)
        ensures
            s@ == self@.cookie_name,
            is_header_text(s@),
    {
        proof {
            use_type_invariant(self);
        }
        self.cookie_name.as_str()
    }
}

/// What a callback does next.
pub enum CallbackStep {
    /// Answer with this error.
    Fail(ErrorReply, Counter),
    /// The flow's cookie is gone: look whether the browser holds a session
    /// already.
    FindSession,
    /// Open the login-state cookie.
    Unseal {
        /// The flow to go on with.
        flow: CallbackFlow,
        /// The sealed login state.
        bundle: Vec<u8>,
        /// The associated data it was sealed with.
        aad: Vec<u8>,
    },
}

/// What the page says about an error response of the authorization server.
pub open spec fn denied_text(error: Seq<char>, description: Option<Seq<char>>) -> Seq<char> {
    match description {
        Some(desc) => "authorization denied: "@ + desc,
        None => "authorization denied ("@ + error + ")"@,
    }
}

/// An error that also clears the flow's cookie, so a stale flow does not
/// replay.
pub open spec fn clearing_error(
    config: LoginConfig,
    status: u16,
    message: Seq<char>,
    cookie_name: Seq<char>,
) -> ErrorView {
    ErrorView {
        status,
        message,
        extra: seq![("set-cookie"@, clear_cookie(cookie_name, flow_attrs(config)))],
    }
}

/// Why a login-state cookie cannot be used: the status and message to answer
/// with. `None` when it can. `opened` is the login state the plaintext decodes
/// to, and when its flow began, if the bundle was opened at all.
pub open spec fn state_fault<L>(
    ttl: Duration,
    opened: Option<Option<(L, Timestamp)>>,
    now: Timestamp,
) -> Option<(u16, Seq<char>)> {
    match opened {
        None => Some((400u16, "state cookie decryption failed"@)),
        Some(None) => Some((500u16, "corrupt login state"@)),
        Some(Some((_, created_at))) => if too_far_future(created_at, now) || now.elapsed(
            created_at,
        ).nanos > ttl.nanos {
            Some((400u16, "login state expired"@))
        } else {
            None
        },
    }
}

/// What a callback for `state` makes of a sealed login state: the login state
/// and start of the flow it decodes to, if it opens under that `state`.
pub open spec fn opened_login<L>(
    bundle: Seq<u8>,
    state: Seq<char>,
    opens: spec_fn(Seq<u8>, Seq<u8>) -> Option<Seq<u8>>,
    decodes: spec_fn(Seq<u8>) -> Option<(L, Timestamp)>,
) -> Option<Option<(L, Timestamp)>> {
    match opens(bundle, encode_utf8(login_aad(state))) {
        Some(plaintext) => Some(decodes(plaintext)),
        None => None,
    }
}

/// The login state a callback goes on with, if it gets that far: given the
/// plaintext the cipher opens a bundle to under associated data, and the login
/// state and start of the flow that a plaintext decodes to.
pub open spec fn resumed_login<L>(
    config: LoginConfig,
    query: Seq<char>,
    pairs: Seq<(Seq<char>, Seq<char>)>,
    opens: spec_fn(Seq<u8>, Seq<u8>) -> Option<Seq<u8>>,
    decodes: spec_fn(Seq<u8>) -> Option<(L, Timestamp)>,
    now: Timestamp,
) -> Option<L> {
    match callback_of(query) {
        CallbackView::Valid(code, state, iss) => match found_state(config, pairs, state) {
            FoundState::Sealed(bundle) => {
                let opened = opened_login(bundle, state, opens, decodes);
                if state_fault(config.login_state_ttl, opened, now) is None {
                    Some((opened->0->0).0)
                } else {
                    None
                }
            },
            _ => None,
        },
        _ => None,
    }
}

/// A login comes back to where it began: the callback of a flow, made within
/// the login-state lifetime with the cookie the flow was started with, goes on
/// with the login state sealed into that cookie. A flow that began up to the
/// tolerated clock skew in the future counts as within its lifetime. The
/// cipher opens what it sealed under the same associated data, and the payload
/// decodes to what was encoded; the browser sends no other cookie of the name
/// before it.
pub proof fn law_started_login_is_resumed<L>(
    config: LoginConfig,
    login: L,
    created_at: Timestamp,
    payload: Seq<u8>,
    bundle: Seq<u8>,
    code: Seq<char>,
    state: Seq<char>,
    iss: Option<Seq<char>>,
    query: Seq<char>,
    pairs: Seq<(Seq<char>, Seq<char>)>,
    at: int,
    opens: spec_fn(Seq<u8>, Seq<u8>) -> Option<Seq<u8>>,
    decodes: spec_fn(Seq<u8>) -> Option<(L, Timestamp)>,
    now: Timestamp,
)
    requires
        base64url_bytes(base64url(bundle)) == Some(bundle),
        opens(bundle, encode_utf8(login_aad(state))) == Some(payload),
        decodes(payload) == Some((login, created_at)),
        callback_of(query) == CallbackView::Valid(code, state, iss),
        0 <= at < pairs.len(),
        pairs[at] == (flow_cookie(config, state), base64url(bundle)),
        forall|k: int| 0 <= k < at ==> (#[trigger] pairs[k]).0 != flow_cookie(config, state),
        created_at.nanos - now.nanos <= MAX_CLOCK_SKEW_NANOS,
        now.nanos - created_at.nanos <= config.login_state_ttl.nanos,
    ensures
        resumed_login(config, query, pairs, opens, decodes, now) == Some(login),
{
    law_login_state_is_found(config, state, bundle, pairs, at);
}

/// A login state resumes no flow but its own: presented by the callback of any
/// other flow, it is refused as one that does not decrypt. The cipher opens a
/// bundle only under the associated data it was sealed with.
pub proof fn law_login_state_resumes_no_other_flow<L>(
    config: LoginConfig,
    bundle: Seq<u8>,
    state: Seq<char>,
    code: Seq<char>,
    other: Seq<char>,
    iss: Option<Seq<char>>,
    query: Seq<char>,
    pairs: Seq<(Seq<char>, Seq<char>)>,
    opens: spec_fn(Seq<u8>, Seq<u8>) -> Option<Seq<u8>>,
    decodes: spec_fn(Seq<u8>) -> Option<(L, Timestamp)>,
    now: Timestamp,
)
    requires
        other != state,
        forall|aad: Seq<u8>| #[trigger]
            opens(bundle, aad) is Some ==> aad == encode_utf8(login_aad(state)),
        callback_of(query) == CallbackView::Valid(code, other, iss),
        found_state(config, pairs, other) == FoundState::Sealed(bundle),
    ensures
        state_fault(config.login_state_ttl, opened_login(bundle, other, opens, decodes), now)
            == Some((400u16, "state cookie decryption failed"@)),
        resumed_login(config, query, pairs, opens, decodes, now) is None,
{
    encode_utf8_decode_utf8(login_aad(state));
    encode_utf8_decode_utf8(login_aad(other));
    let k = "login_state:"@.len() as int;
    assert(login_aad(state).skip(k) =~= state);
    assert(login_aad(other).skip(k) =~= other);
    assert(opens(bundle, encode_utf8(login_aad(other))) is None);
}

/// A session that vouches for its user without any outside work: within its
/// lifetime, with a token that has not expired.
pub open spec fn is_usable(lifetime: SessionLifetime, state: SessionState, now: Timestamp) -> bool {
    teardown_for(lifetime, state, now) is None && now.nanos < state.token_expiry.nanos
}

/// Where to redirect to: the wanted URL where it may stand in a header, else
/// the base URL, else the root.
pub open spec fn location_for(wanted: Seq<char>, base_url: Seq<char>) -> Seq<char> {
    if is_header_text(wanted) {
        wanted
    } else if is_header_text(base_url) {
        base_url
    } else {
        "/"@
    }
}

/// The clears for a list of login-state cookies.
pub open spec fn login_clears(config: LoginConfig, names: Seq<Seq<char>>) -> Seq<Seq<char>> {
    names.map_values(|name: Seq<char>| clear_cookie(name, flow_attrs(config)))
}

/// What a completed login answers: back to where the user wanted to go, with
/// every pending login-state cookie cleared and the session cookies set.
pub open spec fn completed_response(
    config: LoginConfig,
    original_url: Seq<char>,
    headers: HeaderMap,
    session_cookies: Seq<Seq<char>>,
) -> ResponseView {
    ResponseView {
        status: 302,
        headers: redirect_headers(
            location_for(original_url, config.base_url@.text),
            login_clears(config, login_names(request_cookies(headers), flow_prefix(config)))
                + session_cookies,
        ),
        body: Seq::empty(),
    }
}

proof fn lemma_flow_prefix_is_header_text(config: LoginConfig)
    requires
        name_fault(config.login_cookie_prefix@) is None,
    ensures
        is_header_text(flow_prefix(config)),
{
    reveal_strlit("_");
    let name = config.login_cookie_prefix@;
    let path = config.browser_callback_path@;
    lemma_url_safe_is_header_text(name);
    lemma_session_name_is_header_text(name, config.secure, path);
    lemma_header_text_joins(session_name(name, config.secure, path), "_"@);
}

/// The name of a login-state cookie may stand in a header.
pub proof fn lemma_flow_cookie_is_header_text(config: LoginConfig, state: Seq<char>)
    requires
        name_fault(config.login_cookie_prefix@) is None,
        valid_state(state),
    ensures
        is_header_text(flow_cookie(config, state)),
{
    lemma_flow_prefix_is_header_text(config);
    lemma_url_safe_is_header_text(state);
    lemma_header_text_joins(flow_prefix(config), state);
}

/// The cookie a callback came with is among those a completed login sweeps.
pub proof fn law_sweep_covers_own_flow(
    config: LoginConfig,
    pairs: Seq<(Seq<char>, Seq<char>)>,
    state: Seq<char>,
)
    requires
        valid_state(state),
        value_named(pairs, flow_cookie(config, state)) is Some,
    ensures
        login_names(pairs, flow_prefix(config)).contains(flow_cookie(config, state)),
{
    let name = flow_cookie(config, state);
    crate::cookie::law_login_names_are_the_login_cookies(pairs, flow_prefix(config));
    crate::cookie::law_login_cookie_is_recognized(
        state,
        config.secure,
        config.browser_callback_path@,
        config.login_cookie_prefix@,
    );
    lemma_found_is_present(pairs, name);
}

proof fn lemma_found_is_present(pairs: Seq<(Seq<char>, Seq<char>)>, name: Seq<char>)
    requires
        value_named(pairs, name) is Some,
    ensures
        exists|i: int| 0 <= i < pairs.len() && (#[trigger] pairs[i]).0 == name,
    decreases pairs.len(),
{
    if pairs[0].0 == name {
    } else {
        lemma_found_is_present(pairs.skip(1), name);
        let i = choose|i: int|
            0 <= i < pairs.skip(1).len() && (#[trigger] pairs.skip(1)[i]).0 == name;
        assert(pairs[i + 1].0 == name);
    }
}

impl<SD> LoginEngine<SD> {
    /// Reads a callback: its parameters and its login-state cookie. From the
    /// moment the cookie is found, every failure clears it.
    pub fn handle_callback(&self, query: &str, headers: &HeaderMap) -> (step: CallbackStep)
        ensures
            match callback_of(query@) {
                CallbackView::AuthServerError(error, description) => {
                    &&& step is Fail
                    &&& step->Fail_0@ == plain_error(403, denied_text(error, description))
                    &&& step->Fail_1@ == login_complete_counter(
                        LoginCompleteResult::AsDenied,
                        Some(normal_as_error(error)),
                        self.instance(),
                    )
                },
                CallbackView::Missing => {
                    &&& step is Fail
                    &&& step->Fail_0@ == plain_error(400, "missing code or state"@)
                    &&& step->Fail_1@ == login_complete_counter(
                        LoginCompleteResult::InvalidRequest,
                        None,
                        self.instance(),
                    )
                },
                CallbackView::Valid(code, state, iss) => match found_state(
                    self.config,
                    request_cookies(*headers),
                    state,
                ) {
                    FoundState::Absent => step is FindSession,
                    FoundState::Malformed => {
                        &&& step is Fail
                        &&& step->Fail_0@ == clearing_error(
                            self.config,
                            400,
                            "malformed state cookie"@,
                            flow_cookie(self.config, state),
                        )
                        &&& step->Fail_1@ == login_complete_counter(
                            LoginCompleteResult::StateInvalid,
                            None,
                            self.instance(),
                        )
                    },
                    FoundState::Sealed(sealed) => {
                        &&& step is Unseal
                        &&& step->flow@ == (FlowView {
                            code,
                            state,
                            iss,
                            cookie_name: flow_cookie(self.config, state),
                        })
                        &&& step->bundle@ == sealed
                        &&& step->aad@ == encode_utf8(login_aad(state))
                    },
                },
            },
    {
        match parse_callback_params(query) {
            CallbackParse::AuthServerError { error, description } => {
                let (reply, counter) = self.handle_as_error(
                    error.as_str(),
                    match &description {
                        Some(d) => Some(d.as_str()),
                        None => None,
                    },
                );
                CallbackStep::Fail(reply, counter)
            },
            CallbackParse::Missing => CallbackStep::Fail(
                ErrorReply::new(400, "missing code or state"),
                self.record_login_complete(LoginCompleteResult::InvalidRequest, None),
            ),
            CallbackParse::Valid { code, state, iss } => {
                let cookie_name = login_state_cookie_name(
                    state.as_str(),
                    self.config.secure,
                    self.config.browser_callback_path.as_str(),
                    self.config.login_cookie_prefix.as_str(),
                );
                match get_cookie(headers, cookie_name.as_str()) {
                    None => CallbackStep::FindSession,
                    Some(cookie_encoded) => {
                        proof {
                            lemma_flow_cookie_is_header_text(self.config, state@);
                        }
                        match decode_base64url(cookie_encoded.as_str()) {
                            None => CallbackStep::Fail(
                                self.callback_error(
                                    400,
                                    "malformed state cookie",
                                    cookie_name.as_str(),
                                ),
                                self.record_login_complete(
                                    LoginCompleteResult::StateInvalid,
                                    None,
                                ),
                            ),
                            Some(bundle) => {
                                let aad = login_state_aad(state.as_str());
                                let flow = CallbackFlow { code, state, iss, cookie_name };
                                CallbackStep::Unseal { flow, bundle, aad }
                            },
                        }
                    },
                }
            },
        }
    }

    /// Answers an RFC 6749 §4.1.2.1 error response from the authorization
    /// server: the counter carries the error code normalized to a closed set;
    /// the raw `description` reaches the error page, which must escape it.
    pub fn handle_as_error(&self, error: &str, description: Option<&str>) -> (r: (
        ErrorReply,
        Counter,
    ))
        ensures
            r.0@ == plain_error(403, denied_text(error@, opt_str(description))),
            r.1@ == login_complete_counter(
                LoginCompleteResult::AsDenied,
                Some(normal_as_error(error@)),
                self.instance(),
            ),
    {
        let message = match description {
            Some(desc) => {
                let mut s = "authorization denied: ".to_owned();
                s.append(desc);
                s
            },
            None => {
                let mut s = "authorization denied (".to_owned();
                s.append(error);
                s.append(")");
                s
            },
        };
        let counter = self.record_login_complete(
            LoginCompleteResult::AsDenied,
            Some(normalize_as_error(error)),
        );
        (ErrorReply::new(403, message.as_str()), counter)
    }

    /// Answers a callback whose login-state cookie is gone (swept by another
    /// tab's login, or a stale URL): redirects home when the browser already
    /// holds a usable session, else fails.
    pub fn answer_without_state(&self, session: Option<&SessionState>, now: Timestamp) -> (r: (
        Reply,
        Counter,
    ))
        ensures
            ({
                let usable = session matches Some(state) && is_usable(
                    self.config.session_lifetime,
                    *state,
                    now,
                );
                if usable {
                    &&& r.0 is Response
                    &&& r.0->Response_0@ == (ResponseView {
                        status: 302,
                        headers: redirect_headers(
                            location_for(self.config.base_url@.text, self.config.base_url@.text),
                            Seq::empty(),
                        ),
                        body: Seq::empty(),
                    })
                    &&& r.1@ == login_complete_counter(
                        LoginCompleteResult::AlreadyAuthenticated,
                        None,
                        self.instance(),
                    )
                } else {
                    &&& r.0 is Error
                    &&& r.0->Error_0@ == plain_error(400, "invalid or missing state"@)
                    &&& r.1@ == login_complete_counter(
                        LoginCompleteResult::InvalidRequest,
                        None,
                        self.instance(),
                    )
                }
            }),
    {
        let usable = match session {
            Some(state) => self.session_teardown_reason(state, now).is_none() && now.nanos
                < state.token_expiry.nanos,
            None => false,
        };
        if usable {
            let location = self.redirect_location(self.config.base_url.as_str());
            let set_cookies: Vec<String> = Vec::new();
            proof {
                assert(texts(set_cookies@) =~= Seq::<Seq<char>>::empty());
            }
            (
                Reply::Response(LoginResponse::Redirect { status: 302, location, set_cookies }),
                self.record_login_complete(LoginCompleteResult::AlreadyAuthenticated, None),
            )
        } else {
            (
                Reply::Error(ErrorReply::new(400, "invalid or missing state")),
                self.record_login_complete(LoginCompleteResult::InvalidRequest, None),
            )
        }
    }

    /// Judges a login-state cookie: the login state to complete, or the error
    /// to answer with. `opened` is the login state the plaintext decodes to,
    /// and when its flow began, if the bundle was opened at all. Enforces the
    /// login-state lifetime server-side.
    pub fn decode_login_state<L>(
        &self,
        flow: &CallbackFlow,
        opened: Option<Option<(L, Timestamp)>>,
        now: Timestamp,
    ) -> (r: Result<L, (ErrorReply, Counter)>)
        ensures
            match state_fault(self.config.login_state_ttl, opened, now) {
                Some((status, message)) => {
                    &&& r is Err
                    &&& (r->Err_0).0@ == clearing_error(
                        self.config,
                        status,
                        message,
                        flow@.cookie_name,
                    )
                    &&& (r->Err_0).1@ == login_complete_counter(
                        LoginCompleteResult::StateInvalid,
                        None,
                        self.instance(),
                    )
                },
                None => r is Ok && r->Ok_0 == (opened->0->0).0,
            },
    {
        let (status, message): (u16, &str) = match opened {
            None => (400, "state cookie decryption failed"),
            Some(None) => (500, "corrupt login state"),
            Some(Some((login, created_at))) => {
                if is_too_far_future(created_at, now) || now.since(created_at).nanos
                    > self.config.login_state_ttl.nanos {
                    (400, "login state expired")
                } else {
                    return Ok(login);
                }
            },
        };
        Err(
            (
                self.callback_error(status, message, flow.cookie_name()),
                self.record_login_complete(LoginCompleteResult::StateInvalid, None),
            ),
        )
    }

    /// Answers a callback whose code the authorization server did not accept.
    pub fn exchange_failed(&self, flow: &CallbackFlow) -> (r: (ErrorReply, Counter))
        ensures
            r.0@ == clearing_error(
                self.config,
                502,
                "token exchange failed"@,
                flow@.cookie_name,
            ),
            r.1@ == login_complete_counter(
                LoginCompleteResult::TokenExchangeFailed,
                None,
                self.instance(),
            ),
    {
        (
            self.callback_error(502, "token exchange failed", flow.cookie_name()),
            self.record_login_complete(LoginCompleteResult::TokenExchangeFailed, None),
        )
    }

    /// Answers a callback whose session could not be created.
    pub fn create_failed(&self, flow: &CallbackFlow) -> (r: (ErrorReply, Counter))
        ensures
            r.0@ == clearing_error(
                self.config,
                500,
                "failed to create session"@,
                flow@.cookie_name,
            ),
            r.1@ == login_complete_counter(
                LoginCompleteResult::SessionCreateFailed,
                None,
                self.instance(),
            ),
    {
        (
            self.callback_error(500, "failed to create session", flow.cookie_name()),
            self.record_login_complete(LoginCompleteResult::SessionCreateFailed, None),
        )
    }

    /// Answers a completed login: the 302 back to `original_url`, with a clear
    /// for every login-state cookie of the request and the session cookies
    /// minted for it. Falls back to `base_url` if `original_url` is not a valid
    /// header value.
    pub fn build_callback_redirect(
        &self,
        original_url: &str,
        headers: &HeaderMap,
        session_cookies: Vec<String>,
    ) -> (r: (LoginResponse, Counter))
        ensures
            r.0@ == completed_response(
                self.config,
                original_url@,
                *headers,
                texts(session_cookies@),
            ),
            r.1@ == login_complete_counter(LoginCompleteResult::Success, None, self.instance()),
    {
        let location = self.redirect_location(original_url);
        let mut set_cookies = self.login_state_clears(headers);
        let ghost clears = texts(set_cookies@);
        let mut session_cookies = session_cookies;
        let ghost minted = texts(session_cookies@);
        set_cookies.append(&mut session_cookies);
        proof {
            assert(texts(set_cookies@) =~= clears + minted);
        }
        (
            LoginResponse::Redirect { status: 302, location, set_cookies },
            self.record_login_complete(LoginCompleteResult::Success, None),
        )
    }

    /// The `Set-Cookie` values that clear every login-state cookie of a
    /// request.
    fn login_state_clears(&self, headers: &HeaderMap) -> (clears: Vec<String>)
        ensures
            texts(clears@) == login_clears(
                self.config,
                login_names(request_cookies(*headers), flow_prefix(self.config)),
            ),
    {
        let prefix = login_state_cookie_name_prefix(
            self.config.secure,
            self.config.browser_callback_path.as_str(),
            self.config.login_cookie_prefix.as_str(),
        );
        let names = login_state_cookie_names(headers, prefix.as_str());
        let ghost all = texts(names@);
        let ghost wanted = login_clears(self.config, all);
        proof {
            crate::cookie::law_login_names_are_the_login_cookies(
                request_cookies(*headers),
                prefix@,
            );
            lemma_flow_prefix_is_header_text(self.config);
        }
        let mut clears: Vec<String> = Vec::new();
        let mut i: usize = 0;
        proof {
            assert(texts(clears@) =~= wanted.take(0));
        }
        while i < names.len()
            invariant
                i <= names@.len(),
                all == texts(names@),
                all == login_names(request_cookies(*headers), prefix@),
                prefix@ == flow_prefix(self.config),
                is_header_text(prefix@),
                wanted == login_clears(self.config, all),
                forall|name: Seq<char>| #[trigger]
                    all.contains(name) ==> is_login_name(name, prefix@),
                texts(clears@) == wanted.take(i as int),
            decreases names@.len() - i,
        {
            proof {
                assert(all[i as int] == names@[i as int]@);
                assert(all.contains(names@[i as int]@));
                lemma_login_name_is_header_text(names@[i as int]@, prefix@);
            }
            if let Some(clear) = self.clear_login_state_cookie(names[i].as_str()) {
                let ghost seen = texts(clears@);
                clears.push(clear);
                proof {
                    assert(texts(clears@) =~= seen.push(clear@));
                    assert(wanted.take(i + 1) =~= wanted.take(i as int).push(wanted[i as int]));
                }
            }
            i = i + 1;
        }
        proof {
            assert(wanted.take(wanted.len() as int) =~= wanted);
        }
        clears
    }

    /// Builds the `Set-Cookie` value that clears a login-state cookie by name.
    /// `None` if the name produces an invalid header value.
    pub fn clear_login_state_cookie(&self, cookie_name: &str) -> (r: Option<String>)
        ensures
            match r {
                Some(clear) => is_header_text(cookie_name@) && clear@ == clear_cookie(
                    cookie_name@,
                    flow_attrs(self.config),
                ),
                None => !is_header_text(cookie_name@),
            },
    {
        let attrs = cookie_attrs(
            self.config.secure,
            self.config.browser_callback_path.as_str(),
        );
        let clear = clear_cookie_text(cookie_name, attrs.as_str());
        proof {
            lemma_attrs_are_header_text(self.config.secure, self.config.browser_callback_path@);
            if is_header_text(cookie_name@) {
                lemma_set_cookie_is_header_text(cookie_name@, Seq::empty(), attrs@);
            } else if is_header_text(clear@) {
                assert forall|i: int|
                    0 <= i < cookie_name@.len() implies crate::headers::is_header_char(
                    #[trigger] cookie_name@[i],
                ) by {
                    assert(clear@[i] == cookie_name@[i]);
                }
            }
        }
        if is_header_value(clear.as_str()) {
            Some(clear)
        } else {
            None
        }
    }

    /// Builds a callback error that clears the login-state cookie.
    fn callback_error(&self, status: u16, message: &str, cookie_name: &str) -> (e: ErrorReply)
        requires
            is_header_text(cookie_name@),
        ensures
            e@ == clearing_error(self.config, status, message@, cookie_name@),
    {
        let e = ErrorReply::new(status, message);
        match self.clear_login_state_cookie(cookie_name) {
            Some(clear) => {
                let e = e.with_header("set-cookie", clear.as_str());
                proof {
                    assert(e@.extra =~= seq![("set-cookie"@, clear@)]);
                }
                e
            },
            None => e,
        }
    }

    /// Where to redirect to: `wanted` where it may stand in a header, else the
    /// base URL, else the root.
    pub fn redirect_location(&self, wanted: &str) -> (location: String)
        ensures
            location@ == location_for(wanted@, self.config.base_url@.text),
    {
        if is_header_value(wanted) {
            wanted.to_owned()
        } else if is_header_value(self.config.base_url.as_str()) {
            self.config.base_url.as_str().to_owned()
        } else {
            "/".to_owned()
        }
    }
}

proof fn lemma_login_name_is_header_text(name: Seq<char>, prefix: Seq<char>)
    requires
        is_header_text(prefix),
        is_login_name(name, prefix),
    ensures
        is_header_text(name),
{
    let state = name.skip(prefix.len() as int);
    lemma_url_safe_is_header_text(state);
    lemma_header_text_joins(prefix, state);
    assert(prefix + state =~= name);
}

// -- Laws of the query string --

/// One of the parameters of a callback.
pub open spec fn is_callback_param(name: Seq<char>) -> bool {
    ||| name == "code"@
    ||| name == "state"@
    ||| name == "iss"@
    ||| name == "error"@
    ||| name == "error_description"@
}

/// Whether no parameter of a callback is given twice; others may be.
pub open spec fn says_each_once(pairs: Seq<(Seq<char>, Seq<char>)>) -> bool {
    forall|i: int, j: int|
        0 <= i < j < pairs.len() && (#[trigger] pairs[i]).0 == (#[trigger] pairs[j]).0
            ==> !is_callback_param(pairs[i].0)
}

proof fn lemma_occurs(pairs: Seq<(Seq<char>, Seq<char>)>, name: Seq<char>)
    ensures
        occurrences(pairs, name) == 0 <==> forall|i: int|
            0 <= i < pairs.len() ==> (#[trigger] pairs[i]).0 != name,
        occurrences(pairs, name) <= 1 <==> forall|i: int, j: int|
            0 <= i < j < pairs.len() ==> !((#[trigger] pairs[i]).0 == name && (
            #[trigger] pairs[j]).0 == name),
    decreases pairs.len(),
{
    if pairs.len() > 0 {
        let front = pairs.drop_last();
        lemma_occurs(front, name);
        let last = pairs.len() - 1;
        if occurrences(pairs, name) == 0 {
            assert forall|i: int| 0 <= i < pairs.len() implies (#[trigger] pairs[i]).0 != name by {
                if i < last {
                    assert(front[i] == pairs[i]);
                }
            }
        } else if forall|i: int| 0 <= i < pairs.len() ==> (#[trigger] pairs[i]).0 != name {
            assert forall|i: int| 0 <= i < front.len() implies (#[trigger] front[i]).0 != name by {
                assert(front[i] == pairs[i]);
            }
            assert(pairs[last].0 != name);
        }
        if occurrences(pairs, name) <= 1 {
            assert forall|i: int, j: int| 0 <= i < j < pairs.len() implies !((
            #[trigger] pairs[i]).0 == name && (#[trigger] pairs[j]).0 == name) by {
                assert(front[i] == pairs[i]);
                if j < last {
                    assert(front[j] == pairs[j]);
                }
            }
        } else if forall|i: int, j: int|
            0 <= i < j < pairs.len() ==> !((#[trigger] pairs[i]).0 == name && (
            #[trigger] pairs[j]).0 == name) {
            assert forall|i: int, j: int| 0 <= i < j < front.len() implies !((
            #[trigger] front[i]).0 == name && (#[trigger] front[j]).0 == name) by {
                assert(front[i] == pairs[i] && front[j] == pairs[j]);
            }
            assert(pairs[last].0 == name);
            let k = choose|k: int| 0 <= k < front.len() && (#[trigger] front[k]).0 == name;
            assert(front[k] == pairs[k]);
        }
    }
}

proof fn lemma_each_once(pairs: Seq<(Seq<char>, Seq<char>)>)
    ensures
        is_unambiguous(pairs) <==> says_each_once(pairs),
{
    lemma_occurs(pairs, "code"@);
    lemma_occurs(pairs, "state"@);
    lemma_occurs(pairs, "iss"@);
    lemma_occurs(pairs, "error"@);
    lemma_occurs(pairs, "error_description"@);
    if !is_unambiguous(pairs) && says_each_once(pairs) {
        assert forall|i: int, j: int, name: Seq<char>|
            #![trigger pairs[i], pairs[j], is_callback_param(name)]
            0 <= i < j < pairs.len() && is_callback_param(name) implies !(pairs[i].0 == name
            && pairs[j].0 == name) by {}
        assert(is_callback_param("code"@));
        assert(is_callback_param("state"@));
        assert(is_callback_param("iss"@));
        assert(is_callback_param("error"@));
        assert(is_callback_param("error_description"@));
    }
}

proof fn lemma_only_value(pairs: Seq<(Seq<char>, Seq<char>)>, name: Seq<char>, at: int)
    requires
        says_each_once(pairs),
        is_callback_param(name),
        0 <= at < pairs.len(),
        pairs[at].0 == name,
    ensures
        value_named(pairs, name) == Some(pairs[at].1),
{
    assert forall|k: int| 0 <= k < at implies (#[trigger] pairs[k]).0 != name by {}
    crate::cookie::lemma_value_named_at(pairs, name, at);
}

/// Whether a parameter is given.
pub open spec fn gives(pairs: Seq<(Seq<char>, Seq<char>)>, name: Seq<char>) -> bool {
    exists|i: int| 0 <= i < pairs.len() && (#[trigger] pairs[i]).0 == name
}

/// A callback in which a parameter is given twice says nothing.
pub proof fn law_repeated_parameter_voids_the_callback(
    pairs: Vec<(String, String)>,
    i: int,
    j: int,
    r: CallbackParse,
)
    requires
        call_ensures(callback_params, (&pairs,), r),
        0 <= i < j < pairs@.len(),
        pairs@[i].0@ == pairs@[j].0@,
        is_callback_param(pairs@[i].0@),
    ensures
        r is Missing,
{
    let all = pair_texts(pairs@);
    assert(all[i].0 == pairs@[i].0@ && all[j].0 == pairs@[j].0@);
    lemma_each_once(all);
    assert(!says_each_once(all));
}

/// An error response is told as such, with its code and its description,
/// whatever else the callback carries.
pub proof fn law_error_takes_priority(
    pairs: Vec<(String, String)>,
    error_at: int,
    described_at: int,
    r: CallbackParse,
)
    requires
        call_ensures(callback_params, (&pairs,), r),
        says_each_once(pair_texts(pairs@)),
        0 <= error_at < pairs@.len(),
        pairs@[error_at].0@ == "error"@,
    ensures
        r is AuthServerError,
        r->error@ == pairs@[error_at].1@,
        0 <= described_at < pairs@.len() && pairs@[described_at].0@ == "error_description"@
            ==> r->description is Some && r->description->0@ == pairs@[described_at].1@,
        !gives(pair_texts(pairs@), "error_description"@) ==> r->description is None,
{
    let all = pair_texts(pairs@);
    lemma_each_once(all);
    assert(all[error_at] == (pairs@[error_at].0@, pairs@[error_at].1@));
    lemma_only_value(all, "error"@, error_at);
    if 0 <= described_at < pairs@.len() && pairs@[described_at].0@ == "error_description"@ {
        assert(all[described_at] == (pairs@[described_at].0@, pairs@[described_at].1@));
        lemma_only_value(all, "error_description"@, described_at);
    }
    if !gives(all, "error_description"@) {
        crate::cookie::lemma_value_named_none(all, "error_description"@);
    }
}

/// A callback with a code and a valid state, and no error, is told with both as
/// they are, and with its issuer where it names one; one without either, or
/// with an invalid state, says nothing. Other parameters do not matter.
pub proof fn law_code_and_state_are_read(
    pairs: Vec<(String, String)>,
    code_at: int,
    state_at: int,
    iss_at: int,
    r: CallbackParse,
)
    requires
        call_ensures(callback_params, (&pairs,), r),
        says_each_once(pair_texts(pairs@)),
        !gives(pair_texts(pairs@), "error"@),
    ensures
        r is Valid || r is Missing,
        0 <= code_at < pairs@.len() && pairs@[code_at].0@ == "code"@ && 0 <= state_at < pairs@.len()
            && pairs@[state_at].0@ == "state"@ ==> {
            &&& r is Valid <==> valid_state(pairs@[state_at].1@)
            &&& r is Valid ==> {
                &&& r->code@ == pairs@[code_at].1@
                &&& r->state@ == pairs@[state_at].1@
                &&& 0 <= iss_at < pairs@.len() && pairs@[iss_at].0@ == "iss"@ ==> r->iss is Some
                    && r->iss->0@ == pairs@[iss_at].1@
                &&& !gives(pair_texts(pairs@), "iss"@) ==> r->iss is None
            }
        },
        !gives(pair_texts(pairs@), "code"@) || !gives(pair_texts(pairs@), "state"@)
            ==> r is Missing,
{
    let all = pair_texts(pairs@);
    lemma_each_once(all);
    crate::cookie::lemma_value_named_none(all, "error"@);
    if 0 <= code_at < pairs@.len() && pairs@[code_at].0@ == "code"@ {
        assert(all[code_at] == (pairs@[code_at].0@, pairs@[code_at].1@));
        lemma_only_value(all, "code"@, code_at);
    }
    if 0 <= state_at < pairs@.len() && pairs@[state_at].0@ == "state"@ {
        assert(all[state_at] == (pairs@[state_at].0@, pairs@[state_at].1@));
        lemma_only_value(all, "state"@, state_at);
    }
    if 0 <= iss_at < pairs@.len() && pairs@[iss_at].0@ == "iss"@ {
        assert(all[iss_at] == (pairs@[iss_at].0@, pairs@[iss_at].1@));
        lemma_only_value(all, "iss"@, iss_at);
    }
    if !gives(all, "iss"@) {
        crate::cookie::lemma_value_named_none(all, "iss"@);
    }
    if !gives(all, "code"@) {
        crate::cookie::lemma_value_named_none(all, "code"@);
    }
    if !gives(all, "state"@) {
        crate::cookie::lemma_value_named_none(all, "state"@);
    }
}

/// A query string says what its parameters say; one that is malformed says
/// nothing.
pub proof fn law_query_says_what_its_parameters_say(
    query: &str,
    pairs: Vec<(String, String)>,
    from_query: CallbackParse,
    from_pairs: CallbackParse,
)
    requires
        call_ensures(parse_callback_params, (query,), from_query),
        call_ensures(callback_params, (&pairs,), from_pairs),
    ensures
        form_pairs(query@) == Some(pair_texts(pairs@)) ==> from_query@ == from_pairs@,
        form_pairs(query@) is None ==> from_query is Missing,
{
}

// -- Laws of the flow --

/// Whether an error answers with this status, and clears exactly the cookie of
/// this name.
pub open spec fn clears_the_flow(
    config: LoginConfig,
    e: ErrorView,
    status: u16,
    cookie_name: Seq<char>,
) -> bool {
    &&& e.status == status
    &&& e.extra.len() == 1
    &&& e.extra[0] == ("set-cookie"@, flow_clear(config, cookie_name))
}

/// What clears a flow's cookie: the name without a value, on the path of the
/// callback, and no time to live.
pub open spec fn flow_clear(config: LoginConfig, cookie_name: Seq<char>) -> Seq<char> {
    cookie_name + "=; "@ + crate::cookie::guarded(config.secure, config.browser_callback_path@)
        + "; Max-Age=0"@
}

/// A callback goes by what its query says and by the cookie of its flow: an
/// error response is refused with 403 and an incomplete one with 400; without
/// the flow's cookie the browser's session is looked up; a cookie that is no
/// base64url is cleared with a 400; and any other is opened, with the data its
/// flow was sealed with.
pub proof fn law_callback_opens_the_cookie_of_its_flow<SD>(
    engine: LoginEngine<SD>,
    query: &str,
    headers: HeaderMap,
    parse: CallbackParse,
    state: &str,
    path: &str,
    prefix: &str,
    name: String,
    name_text: &str,
    cookie: Option<String>,
    step: CallbackStep,
)
    requires
        call_ensures(LoginEngine::<SD>::handle_callback, (&engine, query, &headers), step),
        call_ensures(parse_callback_params, (query,), parse),
        parse is Valid ==> state@ == parse->state@ && valid_state(state@),
        path@ == engine.config.browser_callback_path@,
        prefix@ == engine.config.login_cookie_prefix@,
        parse is Valid ==> call_ensures(
            login_state_cookie_name,
            (state, engine.config.secure, path, prefix),
            name,
        ),
        name_text@ == name@,
        call_ensures(get_cookie, (&headers, name_text), cookie),
    ensures
        parse is Missing ==> step is Fail && step->Fail_0@.status == 400
            && step->Fail_0@.extra.len() == 0,
        parse is AuthServerError ==> step is Fail && step->Fail_0@.status == 403
            && step->Fail_0@.extra.len() == 0,
        parse is Valid ==> {
            &&& step is FindSession <==> cookie is None
            &&& cookie matches Some(text) ==> {
                &&& base64url_bytes(text@) is None ==> step is Fail && clears_the_flow(
                    engine.config,
                    step->Fail_0@,
                    400,
                    name@,
                )
                &&& base64url_bytes(text@) is Some ==> {
                    &&& step is Unseal
                    &&& base64url_bytes(text@) == Some(step->bundle@)
                    &&& step->aad@ == encode_utf8("login_state:"@ + state@)
                    &&& step->flow@.code == parse->code@
                    &&& step->flow@.state == state@
                    &&& step->flow@.iss == opt_text(parse->iss)
                    &&& step->flow@.cookie_name == name@
                }
            }
        },
{
    crate::cookie::lemma_guards(engine.config.secure, engine.config.browser_callback_path@);
}

/// A login state is accepted exactly when it was opened, makes sense, began at
/// most a minute ahead of the clock, and is no older than a login may take; it
/// is then handed on as it is. Anything else is refused, and the cookie of the
/// flow is cleared.
pub proof fn law_login_state_is_good_for_its_time<SD, L>(
    engine: LoginEngine<SD>,
    flow: CallbackFlow,
    opened: Option<Option<(L, Timestamp)>>,
    now: Timestamp,
    r: Result<L, (ErrorReply, Counter)>,
)
    requires
        call_ensures(
            LoginEngine::<SD>::decode_login_state::<L>,
            (&engine, &flow, opened, now),
            r,
        ),
    ensures
        opened matches Some(Some((login, created_at))) ==> {
            &&& r is Ok <==> created_at.nanos - now.nanos <= 60_000_000_000 && now.nanos
                - created_at.nanos <= engine.config.login_state_ttl.nanos
            &&& r is Ok ==> r->Ok_0 == login
            &&& r is Err ==> clears_the_flow(
                engine.config,
                (r->Err_0).0@,
                400,
                flow@.cookie_name,
            )
        },
        opened == Some(None::<(L, Timestamp)>) ==> r is Err && clears_the_flow(
            engine.config,
            (r->Err_0).0@,
            500,
            flow@.cookie_name,
        ),
        opened is None ==> r is Err && clears_the_flow(
            engine.config,
            (r->Err_0).0@,
            400,
            flow@.cookie_name,
        ),
{
    crate::cookie::lemma_guards(engine.config.secure, engine.config.browser_callback_path@);
}

/// A code the server does not accept, and a session that cannot be created,
/// are answered with 502 and 500, and the cookie of the flow is cleared.
pub proof fn law_failed_logins_clear_their_flow<SD>(
    engine: LoginEngine<SD>,
    flow: CallbackFlow,
    exchange: (ErrorReply, Counter),
    create: (ErrorReply, Counter),
)
    requires
        call_ensures(LoginEngine::<SD>::exchange_failed, (&engine, &flow), exchange),
        call_ensures(LoginEngine::<SD>::create_failed, (&engine, &flow), create),
    ensures
        clears_the_flow(engine.config, exchange.0@, 502, flow@.cookie_name),
        clears_the_flow(engine.config, create.0@, 500, flow@.cookie_name),
{
    crate::cookie::lemma_guards(engine.config.secure, engine.config.browser_callback_path@);
}

/// A callback whose flow is gone is sent home exactly when the browser holds a
/// session that is alive and whose token is valid; otherwise it is refused.
pub proof fn law_only_a_live_session_answers_without_state<SD>(
    engine: LoginEngine<SD>,
    state: SessionState,
    now: Timestamp,
    r: (Reply, Counter),
    none: (Reply, Counter),
)
    requires
        call_ensures(LoginEngine::<SD>::answer_without_state, (&engine, Some(&state), now), r),
        call_ensures(LoginEngine::<SD>::answer_without_state, (&engine, None, now), none),
    ensures
        r.0 is Response <==> {
            &&& state.created_at.nanos - now.nanos <= 60_000_000_000
            &&& state.expire_at matches Some(end) ==> now.nanos <= end.nanos
            &&& engine.config.session_lifetime matches SessionLifetime::Bounded(cap) ==> now.nanos
                - state.created_at.nanos <= cap.nanos
            &&& now.nanos < state.token_expiry.nanos
        },
        r.0 matches Reply::Response(response) ==> {
            &&& response@.status == 302
            &&& response@.headers.len() == 2
            &&& response@.headers[0].0 == "location"@
            &&& is_header_text(engine.config.base_url@.text) ==> response@.headers[0].1
                == engine.config.base_url@.text
        },
        r.0 matches Reply::Error(e) ==> e@.status == 400 && e@.extra.len() == 0,
        none.0 is Error && none.0->Error_0@.status == 400,
{
}

/// A redirect goes where it is wanted to go whenever that may stand in a header,
/// query and all; only where it may not, to the base URL.
pub proof fn law_redirect_goes_where_it_is_wanted<SD>(
    engine: LoginEngine<SD>,
    wanted: &str,
    location: String,
)
    requires
        call_ensures(LoginEngine::<SD>::redirect_location, (&engine, wanted), location),
    ensures
        is_header_text(wanted@) ==> location@ == wanted@,
        !is_header_text(wanted@) && is_header_text(engine.config.base_url@.text) ==> location@
            == engine.config.base_url@.text,
        is_header_text(location@),
{
    reveal_strlit("/");
}

/// A completed login answers with a 302 to the URL it was started from,
/// whenever that may stand in a header; it is not cacheable, sets every session
/// cookie, in order, and clears the cookie of every flow the browser sent.
pub proof fn law_completed_login_goes_back<SD>(
    engine: LoginEngine<SD>,
    original_url: &str,
    headers: HeaderMap,
    session_cookies: Vec<String>,
    state: Seq<char>,
    at: int,
    r: (LoginResponse, Counter),
)
    requires
        call_ensures(
            LoginEngine::<SD>::build_callback_redirect,
            (&engine, original_url, &headers, session_cookies),
            r,
        ),
    ensures
        r.0@.status == 302,
        r.0@.headers.len() >= 2 + session_cookies@.len(),
        r.0@.headers[0].0 == "location"@,
        is_header_text(original_url@) ==> r.0@.headers[0].1 == original_url@,
        r.0@.headers[1] == ("cache-control"@, "no-store"@),
        forall|i: int|
            2 <= i < r.0@.headers.len() ==> (#[trigger] r.0@.headers[i]).0 == "set-cookie"@,
        forall|i: int|
            0 <= i < session_cookies@.len() ==> r.0@.headers[r.0@.headers.len()
                - session_cookies@.len() + i] == ("set-cookie"@, #[trigger] session_cookies@[i]@),
        valid_state(state) && 0 <= at < request_cookies(headers).len() && request_cookies(
            headers,
        )[at].0 == flow_cookie(engine.config, state) ==> r.0@.headers.contains(
            ("set-cookie"@, flow_clear(engine.config, flow_cookie(engine.config, state))),
        ),
        r.1@.name == "huskarl.login.complete"@,
        r.1@.labels.len() >= 2,
        r.1@.labels[0] == ("outcome"@, "ok"@),
        r.1@.labels[1] == ("error"@, "none"@),
{
    let pairs = request_cookies(headers);
    let names = login_names(pairs, flow_prefix(engine.config));
    let clears = login_clears(engine.config, names);
    let minted = texts(session_cookies@);
    let cookies = clears + minted;
    let all = r.0@.headers;
    assert(all.len() == 2 + cookies.len());
    assert forall|i: int| 2 <= i < all.len() implies (#[trigger] all[i]) == (
        "set-cookie"@,
        cookies[i - 2],
    ) by {}
    assert forall|i: int| 0 <= i < session_cookies@.len() implies all[all.len()
        - session_cookies@.len() + i] == ("set-cookie"@, #[trigger] session_cookies@[i]@) by {
        assert(minted[i] == session_cookies@[i]@);
        assert(cookies[clears.len() + i] == minted[i]);
    }
    if valid_state(state) && 0 <= at < pairs.len() && pairs[at].0 == flow_cookie(
        engine.config,
        state,
    ) {
        let name = flow_cookie(engine.config, state);
        crate::cookie::lemma_first_named(pairs, name);
        law_sweep_covers_own_flow(engine.config, pairs, state);
        let k = choose|k: int| 0 <= k < names.len() && names[k] == name;
        crate::cookie::lemma_guards(engine.config.secure, engine.config.browser_callback_path@);
        assert(clears[k] == clear_cookie(name, flow_attrs(engine.config)));
        assert(cookies[k] == clears[k]);
        assert(all[k + 2] == ("set-cookie"@, clears[k]));
    }
}

/// The name of a flow's cookie: the derived prefix, the configured name, an
/// underscore and the state.
pub proof fn law_flow_cookie_is_named_by_its_state(config: LoginConfig, state: Seq<char>)
    ensures
        ({
            let bare = config.login_cookie_prefix@ + "_"@ + state;
            let name = flow_cookie(config, state);
            &&& config.secure && config.browser_callback_path@ == "/"@ ==> name == "__Host-"@ + bare
            &&& config.secure && config.browser_callback_path@ != "/"@ ==> name == "__Secure-"@
                + bare
            &&& !config.secure ==> name == bare
        }),
{
    let bare = config.login_cookie_prefix@ + "_"@ + state;
    let name = flow_cookie(config, state);
    if !config.secure {
        assert(name =~= bare);
    } else if config.browser_callback_path@ == "/"@ {
        assert(name =~= "__Host-"@ + bare);
    } else {
        assert(name =~= "__Secure-"@ + bare);
    }
}

/// Whether a counter tells how a callback ended, and with which error code.
pub open spec fn counts_callback(c: Counter, outcome: Seq<char>, error: Seq<char>) -> bool {
    &&& c@.name == "huskarl.login.complete"@
    &&& c@.labels.len() >= 2
    &&& c@.labels[0] == ("outcome"@, outcome)
    &&& c@.labels[1] == ("error"@, error)
}

/// How a callback ends is counted under its own outcome.
pub proof fn law_callback_ends_are_counted<SD, L>(
    engine: LoginEngine<SD>,
    query: &str,
    headers: HeaderMap,
    parse: CallbackParse,
    step: CallbackStep,
    flow: CallbackFlow,
    opened: Option<Option<(L, Timestamp)>>,
    session: Option<&SessionState>,
    now: Timestamp,
    decoded: Result<L, (ErrorReply, Counter)>,
    exchange: (ErrorReply, Counter),
    create: (ErrorReply, Counter),
    without: (Reply, Counter),
)
    requires
        call_ensures(LoginEngine::<SD>::handle_callback, (&engine, query, &headers), step),
        call_ensures(parse_callback_params, (query,), parse),
        call_ensures(
            LoginEngine::<SD>::decode_login_state::<L>,
            (&engine, &flow, opened, now),
            decoded,
        ),
        call_ensures(LoginEngine::<SD>::exchange_failed, (&engine, &flow), exchange),
        call_ensures(LoginEngine::<SD>::create_failed, (&engine, &flow), create),
        call_ensures(LoginEngine::<SD>::answer_without_state, (&engine, session, now), without),
    ensures
        parse is Missing ==> counts_callback(step->Fail_1, "invalid_request"@, "none"@),
        parse is Valid && step is Fail ==> counts_callback(
            step->Fail_1,
            "state_invalid"@,
            "none"@,
        ),
        decoded is Err ==> counts_callback((decoded->Err_0).1, "state_invalid"@, "none"@),
        counts_callback(exchange.1, "token_exchange_failed"@, "none"@),
        counts_callback(create.1, "session_create_failed"@, "none"@),
        without.0 is Response ==> counts_callback(without.1, "already_authenticated"@, "none"@),
        without.0 is Error ==> counts_callback(without.1, "invalid_request"@, "none"@),
{
}

/// An error response is told to the user as the server describes it, or by its
/// code where it does not, and counted under its code where that is registered.
pub proof fn law_denial_is_told_and_counted<SD>(
    engine: LoginEngine<SD>,
    error: &str,
    description: Option<&str>,
    code: &'static str,
    r: (ErrorReply, Counter),
)
    requires
        call_ensures(LoginEngine::<SD>::handle_as_error, (&engine, error, description), r),
        call_ensures(normalize_as_error, (error,), code),
    ensures
        r.0@.status == 403,
        r.0@.extra.len() == 0,
        description matches Some(d) ==> r.0@.message == "authorization denied: "@ + d@,
        description is None ==> r.0@.message == "authorization denied ("@ + error@ + ")"@,
        counts_callback(r.1, "as_denied"@, code@),
{
}

/// The callback of an error response answers it as one.
pub proof fn law_error_callback_is_the_denial<SD>(
    engine: LoginEngine<SD>,
    query: &str,
    headers: HeaderMap,
    error: &str,
    description: Option<&str>,
    parse: CallbackParse,
    step: CallbackStep,
    denial: (ErrorReply, Counter),
)
    requires
        call_ensures(LoginEngine::<SD>::handle_callback, (&engine, query, &headers), step),
        call_ensures(parse_callback_params, (query,), parse),
        parse is AuthServerError,
        error@ == parse->error@,
        opt_str(description) == opt_text(parse->description),
        call_ensures(LoginEngine::<SD>::handle_as_error, (&engine, error, description), denial),
    ensures
        step is Fail,
        step->Fail_0@ == denial.0@,
        step->Fail_1@ == denial.1@,
{
}

/// A login state is sealed with its purpose and the state of its flow.
pub proof fn law_login_state_is_bound_to_its_flow(state: &str, aad: Vec<u8>)
    requires
        call_ensures(login_state_aad, (state,), aad),
    ensures
        aad@ == encode_utf8("login_state:"@ + state@),
{
}

/// A completed login sets nothing but clears of flows and the session's cookies.
pub proof fn law_completed_login_sets_nothing_else<SD>(
    engine: LoginEngine<SD>,
    original_url: &str,
    headers: HeaderMap,
    session_cookies: Vec<String>,
    i: int,
    r: (LoginResponse, Counter),
)
    requires
        call_ensures(
            LoginEngine::<SD>::build_callback_redirect,
            (&engine, original_url, &headers, session_cookies),
            r,
        ),
        2 <= i < r.0@.headers.len() - session_cookies@.len(),
    ensures
        exists|name: Seq<char>| #[trigger]
            is_login_name(name, flow_prefix(engine.config)) && r.0@.headers[i] == (
                "set-cookie"@,
                flow_clear(engine.config, name),
            ),
{
    let pairs = request_cookies(headers);
    let prefix = flow_prefix(engine.config);
    let names = login_names(pairs, prefix);
    let clears = login_clears(engine.config, names);
    let cookies = clears + texts(session_cookies@);
    crate::cookie::lemma_guards(engine.config.secure, engine.config.browser_callback_path@);
    crate::cookie::law_login_names_are_the_login_cookies(pairs, prefix);
    assert(r.0@.headers[i] == ("set-cookie"@, cookies[i - 2]));
    assert(cookies[i - 2] == clears[i - 2]);
    let name = names[i - 2];
    assert(names.contains(name));
    assert(clears[i - 2] == clear_cookie(name, flow_attrs(engine.config)));
    assert(is_login_name(name, prefix));
}

/// A flow's cookie is cleared exactly when its name may stand in a header.
pub proof fn law_flow_cookie_can_be_cleared<SD>(
    engine: LoginEngine<SD>,
    cookie_name: &str,
    r: Option<String>,
)
    requires
        call_ensures(LoginEngine::<SD>::clear_login_state_cookie, (&engine, cookie_name), r),
    ensures
        r is Some <==> is_header_text(cookie_name@),
        r matches Some(clear) ==> clear@ == flow_clear(engine.config, cookie_name@),
{
    crate::cookie::lemma_guards(engine.config.secure, engine.config.browser_callback_path@);
}

} // verus!
