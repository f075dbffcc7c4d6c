//! The counters this crate reports, as values: a counter to increment is
//! handed to the caller, which passes it on to the metrics recorder in use.
//!
//! | Counter | Labels |
//! |---------|--------|
//! | `huskarl.login.start` | `outcome` |
//! | `huskarl.login.complete` | `outcome`, `error` |
//! | `huskarl.session.refresh` | `outcome` |
//! | `huskarl.session.teardown` | `reason` |
//! | `huskarl.session.superseded_delete` | `outcome` |
//! | `huskarl.session.liveness_failure` | `op` |
//! | `huskarl.session_cookie.encrypt` | `cookie`, `kid` |
//! | `huskarl.session_cookie.decrypt` | `cookie`, `kid`, `outcome` |
//!
//! Every counter additionally carries a `name` label when the engine was
//! given an instance name.

use vstd::prelude::*;

use crate::text::{opt_str, same_text};

verus! {

/// One label of a counter.
#[derive(Debug)]
pub struct Label {
    /// The label's name.
    pub key: &'static str,
    /// The label's value.
    pub value: String,
}

impl Label {
    /// A label made of copies of the given texts.
    pub fn new(key: &'static str, value: &str) -> (l: Self)
        ensures
            l@ == (key@, value@),
    {
        Label { key, value: value.to_owned() }
    }
}

impl View for Label {
    type V = (Seq<char>, Seq<char>);

    open spec fn view(&self) -> (Seq<char>, Seq<char>) {
        (self.key@, self.value@)
    }
}

/// The texts of a list of labels.
pub open spec fn label_texts(labels: Seq<Label>) -> Seq<(Seq<char>, Seq<char>)> {
    labels.map_values(|l: Label| l@)
}

/// A counter to be incremented by one.
#[derive(Debug)]
pub struct Counter {
    /// The counter's name.
    pub name: &'static str,
    /// Its labels, in order.
    pub labels: Vec<Label>,
}

/// What a [`Counter`] reports: its name and its labels.
#[verifier::ext_equal]
pub struct CounterView {
    /// The counter's name.
    pub name: Seq<char>,
    /// Its labels, in order.
    pub labels: Seq<(Seq<char>, Seq<char>)>,
}

impl View for Counter {
    type V = CounterView;

    open spec fn view(&self) -> CounterView {
        CounterView { name: self.name@, labels: label_texts(self.labels@) }
    }
}

/// What a list of counters reports.
pub open spec fn counter_views(counters: Seq<Counter>) -> Seq<CounterView> {
    counters.map_values(|c: Counter| c@)
}

/// The counter `name` with `labels`, and with the instance name as a last
/// `name` label when there is one.
pub open spec fn counter_view(
    name: Seq<char>,
    labels: Seq<(Seq<char>, Seq<char>)>,
    metrics_name: Option<Seq<char>>,
) -> CounterView {
    CounterView {
        name,
        labels: match metrics_name {
            Some(instance) => labels.push(("name"@, instance)),
            None => labels,
        },
    }
}

/// The counter `name` with `labels`, appending the instance `name` label when
/// `metrics_name` is set.
pub fn emit_counter(name: &'static str, labels: Vec<Label>, metrics_name: Option<&str>) -> (c:
    Counter)
    ensures
        c@ == counter_view(name@, label_texts(labels@), opt_str(metrics_name)),
{
    let mut labels = labels;
    if let Some(instance) = metrics_name {
        let ghost before = label_texts(labels@);
        labels.push(Label::new("name", instance));
        proof {
            assert(label_texts(labels@) =~= before.push(("name"@, instance@)));
        }
    }
    Counter { name, labels }
}

/// Outcome of a session cookie decryption attempt; the
/// `huskarl.session_cookie.decrypt` `outcome` label.
#[derive(Debug, Clone, Copy, PartialEq, Eq, Structural)]
pub enum DecryptResult {
    /// The cookie was successfully decrypted and deserialized.
    Success,
    /// The cookie value was not valid base64url.
    BadEncoding,
    /// The AEAD seal could not be verified (wrong key, tampered payload, etc.).
    DecryptFailed,
    /// The plaintext was authenticated but could not be deserialized.
    PayloadInvalid,
}

impl DecryptResult {
    /// The label value of this outcome.
    pub open spec fn label(self) -> Seq<char> {
        match self {
            DecryptResult::Success => "ok"@,
            DecryptResult::BadEncoding => "bad_encoding"@,
            DecryptResult::DecryptFailed => "decrypt_failed"@,
            DecryptResult::PayloadInvalid => "payload_invalid"@,
        }
    }

    /// The label value of this outcome.
    pub fn as_str(&self) -> (s: &'static str)
        ensures
            s@ == self.label(),
    {
        match self {
            DecryptResult::Success => "ok",
            DecryptResult::BadEncoding => "bad_encoding",
            DecryptResult::DecryptFailed => "decrypt_failed",
            DecryptResult::PayloadInvalid => "payload_invalid",
        }
    }
}

/// Outcome of a login redirect attempt; the `huskarl.login.start` `outcome`
/// label.
#[derive(Debug, Clone, Copy, PartialEq, Eq, Structural)]
pub enum LoginStartResult {
    /// The redirect to the authorization server was produced successfully.
    Success,
    /// Generating the redirect failed (e.g. authorization server unreachable).
    Error,
}

impl LoginStartResult {
    /// The label value of this outcome.
    pub open spec fn label(self) -> Seq<char> {
        match self {
            LoginStartResult::Success => "ok"@,
            LoginStartResult::Error => "error"@,
        }
    }

    /// The label value of this outcome.
    pub fn as_str(&self) -> (s: &'static str)
        ensures
            s@ == self.label(),
    {
        match self {
            LoginStartResult::Success => "ok",
            LoginStartResult::Error => "error",
        }
    }
}

/// Outcome of processing an OAuth callback; the `huskarl.login.complete`
/// `outcome` label.
#[derive(Debug, Clone, Copy, PartialEq, Eq, Structural)]
pub enum LoginCompleteResult {
    /// Login completed successfully: a new session was created.
    Success,
    /// The callback carried no usable login state but the browser already
    /// holds a usable session; it was redirected home without
    /// re-authenticating.
    AlreadyAuthenticated,
    /// The authorization server returned an error response.
    AsDenied,
    /// The callback request was malformed: missing or invalid `code` or
    /// `state`.
    InvalidRequest,
    /// The login-state cookie was corrupted or could not be authenticated.
    StateInvalid,
    /// The token exchange with the authorization server failed.
    TokenExchangeFailed,
    /// Session creation in the session store failed.
    SessionCreateFailed,
}

impl LoginCompleteResult {
    /// The label value of this outcome.
    pub open spec fn label(self) -> Seq<char> {
        match self {
            LoginCompleteResult::Success => "ok"@,
            LoginCompleteResult::AlreadyAuthenticated => "already_authenticated"@,
            LoginCompleteResult::AsDenied => "as_denied"@,
            LoginCompleteResult::InvalidRequest => "invalid_request"@,
            LoginCompleteResult::StateInvalid => "state_invalid"@,
            LoginCompleteResult::TokenExchangeFailed => "token_exchange_failed"@,
            LoginCompleteResult::SessionCreateFailed => "session_create_failed"@,
        }
    }

    /// The label value of this outcome.
    pub fn as_str(&self) -> (s: &'static str)
        ensures
            s@ == self.label(),
    {
        match self {
            LoginCompleteResult::Success => "ok",
            LoginCompleteResult::AlreadyAuthenticated => "already_authenticated",
            LoginCompleteResult::AsDenied => "as_denied",
            LoginCompleteResult::InvalidRequest => "invalid_request",
            LoginCompleteResult::StateInvalid => "state_invalid",
            LoginCompleteResult::TokenExchangeFailed => "token_exchange_failed",
            LoginCompleteResult::SessionCreateFailed => "session_create_failed",
        }
    }
}

/// Whether `code` is a registered authorization error code (RFC 6749
/// §4.1.2.1, OIDC Core §3.1.2.6).
pub open spec fn is_known_as_error(code: Seq<char>) -> bool {
    ||| code == "invalid_request"@
    ||| code == "unauthorized_client"@
    ||| code == "access_denied"@
    ||| code == "unsupported_response_type"@
    ||| code == "invalid_scope"@
    ||| code == "server_error"@
    ||| code == "temporarily_unavailable"@
    ||| code == "interaction_required"@
    ||| code == "login_required"@
    ||| code == "account_selection_required"@
    ||| code == "consent_required"@
    ||| code == "invalid_request_uri"@
    ||| code == "invalid_request_object"@
    ||| code == "request_not_supported"@
    ||| code == "request_uri_not_supported"@
    ||| code == "registration_not_supported"@
}

/// The label value for an authorization error code: itself when registered,
/// `other` otherwise.
pub open spec fn normal_as_error(code: Seq<char>) -> Seq<char> {
    if is_known_as_error(code) {
        code
    } else {
        "other"@
    }
}

/// The authorization error codes that [`normalize_as_error`] lets through.
pub fn known_as_error_codes() -> (codes: [&'static str; 16])
    ensures
        forall|code: Seq<char>|
            is_known_as_error(code) <==> exists|i: int|
                0 <= i < 16 && #[trigger] codes@[i]@ == code,
{
    let codes = [
        "invalid_request",
        "unauthorized_client",
        "access_denied",
        "unsupported_response_type",
        "invalid_scope",
        "server_error",
        "temporarily_unavailable",
        "interaction_required",
        "login_required",
        "account_selection_required",
        "consent_required",
        "invalid_request_uri",
        "invalid_request_object",
        "request_not_supported",
        "request_uri_not_supported",
        "registration_not_supported",
    ];
    proof {
        assert forall|code: Seq<char>| is_known_as_error(code) implies exists|i: int|
            0 <= i < 16 && #[trigger] codes@[i]@ == code by {
            assert(codes@[0]@ == "invalid_request"@);
            assert(codes@[1]@ == "unauthorized_client"@);
            assert(codes@[2]@ == "access_denied"@);
            assert(codes@[3]@ == "unsupported_response_type"@);
            assert(codes@[4]@ == "invalid_scope"@);
            assert(codes@[5]@ == "server_error"@);
            assert(codes@[6]@ == "temporarily_unavailable"@);
            assert(codes@[7]@ == "interaction_required"@);
            assert(codes@[8]@ == "login_required"@);
            assert(codes@[9]@ == "account_selection_required"@);
            assert(codes@[10]@ == "consent_required"@);
            assert(codes@[11]@ == "invalid_request_uri"@);
            assert(codes@[12]@ == "invalid_request_object"@);
            assert(codes@[13]@ == "request_not_supported"@);
            assert(codes@[14]@ == "request_uri_not_supported"@);
            assert(codes@[15]@ == "registration_not_supported"@);
        }
    }
    codes
}

/// Normalizes an attacker-suppliable authorization error code: registered
/// codes pass through, anything else maps to `"other"`.
pub fn normalize_as_error(error: &str) -> (s: &'static str)
    ensures
        s@ == normal_as_error(error@),
{
    let codes = known_as_error_codes();
    let mut i: usize = 0;
    while i < 16
        invariant
            i <= 16,
            forall|code: Seq<char>|
                is_known_as_error(code) <==> exists|k: int|
                    0 <= k < 16 && #[trigger] codes@[k]@ == code,
            forall|k: int| 0 <= k < i ==> #[trigger] codes@[k]@ != error@,
        decreases 16 - i,
    {
        if same_text(codes[i], error) {
            return codes[i];
        }
        i = i + 1;
    }
    "other"
}

/// Outcome of a token refresh attempt; the `huskarl.session.refresh`
/// `outcome` label.
#[derive(Debug, Clone, Copy, PartialEq, Eq, Structural)]
pub enum RefreshResult {
    /// The session had no refresh token: it was cleared.
    NoRefreshToken,
    /// The refresh token was exchanged successfully for new tokens.
    Success,
    /// The token refresh failed conclusively: the session was cleared.
    Failed,
    /// The refresh failed with a retryable error while the access token was
    /// still valid: the session was retained and keeps being served.
    FailedRetained,
    /// The refresh failed with a retryable error after the access token had
    /// expired: the session was retained, but the request was not served.
    FailedUnavailable,
}

impl RefreshResult {
    /// The label value of this outcome.
    pub open spec fn label(self) -> Seq<char> {
        match self {
            RefreshResult::NoRefreshToken => "no_refresh_token"@,
            RefreshResult::Success => "ok"@,
            RefreshResult::Failed => "failed"@,
            RefreshResult::FailedRetained => "failed_retained"@,
            RefreshResult::FailedUnavailable => "failed_unavailable"@,
        }
    }

    /// The label value of this outcome.
    pub fn as_str(&self) -> (s: &'static str)
        ensures
            s@ == self.label(),
    {
        match self {
            RefreshResult::NoRefreshToken => "no_refresh_token",
            RefreshResult::Success => "ok",
            RefreshResult::Failed => "failed",
            RefreshResult::FailedRetained => "failed_retained",
            RefreshResult::FailedUnavailable => "failed_unavailable",
        }
    }
}

/// Outcome of deleting the record a new login superseded; the
/// `huskarl.session.superseded_delete` `outcome` label.
#[derive(Debug, Clone, Copy, PartialEq, Eq, Structural)]
pub enum SupersededDeleteResult {
    /// The superseded record was deleted.
    Deleted,
    /// The pointer cookie was valid but no record exists for it.
    NotFound,
    /// Loading the superseded record failed; it may still be stored.
    LoadFailed,
    /// Deleting the superseded record failed; it is still stored.
    DeleteFailed,
}

impl SupersededDeleteResult {
    /// The label value of this outcome.
    pub open spec fn label(self) -> Seq<char> {
        match self {
            SupersededDeleteResult::Deleted => "deleted"@,
            SupersededDeleteResult::NotFound => "not_found"@,
            SupersededDeleteResult::LoadFailed => "load_failed"@,
            SupersededDeleteResult::DeleteFailed => "delete_failed"@,
        }
    }

    /// The label value of this outcome.
    pub fn as_str(&self) -> (s: &'static str)
        ensures
            s@ == self.label(),
    {
        match self {
            SupersededDeleteResult::Deleted => "deleted",
            SupersededDeleteResult::NotFound => "not_found",
            SupersededDeleteResult::LoadFailed => "load_failed",
            SupersededDeleteResult::DeleteFailed => "delete_failed",
        }
    }
}

/// A liveness store operation that failed (best effort: the request
/// proceeded); the `huskarl.session.liveness_failure` `op` label.
#[derive(Debug, Clone, Copy, PartialEq, Eq, Structural)]
pub enum LivenessFailure {
    /// `last_active` could not be read; the session was served as active.
    Read,
    /// Recording activity failed; the next advance is delayed.
    Touch,
    /// Removing an entry failed; the stale entry remains until its TTL.
    Clear,
}

impl LivenessFailure {
    /// The label value of this operation.
    pub open spec fn label(self) -> Seq<char> {
        match self {
            LivenessFailure::Read => "read"@,
            LivenessFailure::Touch => "touch"@,
            LivenessFailure::Clear => "clear"@,
        }
    }

    /// The label value of this operation.
    pub fn as_str(&self) -> (s: &'static str)
        ensures
            s@ == self.label(),
    {
        match self {
            LivenessFailure::Read => "read",
            LivenessFailure::Touch => "touch",
            LivenessFailure::Clear => "clear",
        }
    }
}

/// A registered error code is reported as it is, and any other as `other`.
pub proof fn law_only_registered_codes_are_reported(
    error: &str,
    codes: [&'static str; 16],
    i: int,
    s: &'static str,
)
    requires
        call_ensures(known_as_error_codes, (), codes),
        call_ensures(normalize_as_error, (error,), s),
    ensures
        0 <= i < 16 && codes@[i]@ == error@ ==> s@ == error@,
        (forall|k: int| 0 <= k < 16 ==> #[trigger] codes@[k]@ != error@) ==> s@ == "other"@,
        s@ == error@ || s@ == "other"@,
        s@ == normal_as_error(error@),
{
}

/// Every outcome has a label of its own, so no two are counted as one.
pub proof fn law_outcomes_are_told_apart(
    decrypt: (DecryptResult, DecryptResult),
    refresh: (RefreshResult, RefreshResult),
    superseded: (SupersededDeleteResult, SupersededDeleteResult),
    liveness: (LivenessFailure, LivenessFailure),
)
    ensures
        decrypt.0.label() == decrypt.1.label() ==> decrypt.0 == decrypt.1,
        refresh.0.label() == refresh.1.label() ==> refresh.0 == refresh.1,
        superseded.0.label() == superseded.1.label() ==> superseded.0 == superseded.1,
        liveness.0.label() == liveness.1.label() ==> liveness.0 == liveness.1,
        DecryptResult::Success.label() == "ok"@,
        RefreshResult::Success.label() == "ok"@,
        SupersededDeleteResult::Deleted.label() == "deleted"@,
{
    reveal_strlit("ok");
    reveal_strlit("bad_encoding");
    reveal_strlit("decrypt_failed");
    reveal_strlit("payload_invalid");
    reveal_strlit("no_refresh_token");
    reveal_strlit("failed");
    reveal_strlit("failed_retained");
    reveal_strlit("failed_unavailable");
    reveal_strlit("deleted");
    reveal_strlit("not_found");
    reveal_strlit("load_failed");
    reveal_strlit("delete_failed");
    reveal_strlit("read");
    reveal_strlit("touch");
    reveal_strlit("clear");
    assert("failed"@.len() == 6 && "failed_retained"@.len() == 15);
    assert("failed_unavailable"@.len() == 18 && "no_refresh_token"@.len() == 16);
    assert("deleted"@.len() == 7 && "delete_failed"@.len() == 13);
    assert("load_failed"@.len() == 11 && "not_found"@.len() == 9 && "ok"@.len() == 2);
    assert("bad_encoding"@[0] == 'b');
    assert("decrypt_failed"@[0] == 'd');
    assert("payload_invalid"@[0] == 'p');
    assert("ok"@[0] == 'o');
    assert("no_refresh_token"@[0] == 'n');
    assert("load_failed"@[0] == 'l');
    assert("not_found"@[0] == 'n');
    assert("read"@[0] == 'r');
    assert("touch"@[0] == 't');
    assert("clear"@[0] == 'c');
}

/// A counter has the name and the labels it is given, and the instance name as
/// its last label where there is one.
pub proof fn law_instance_comes_last(
    name: &'static str,
    labels: Vec<Label>,
    instance: Option<&str>,
    c: Counter,
)
    requires
        call_ensures(emit_counter, (name, labels, instance), c),
    ensures
        c@.name == name@,
        instance is None ==> c@.labels.len() == labels@.len(),
        instance matches Some(n) ==> {
            &&& c@.labels.len() == labels@.len() + 1
            &&& c@.labels.last() == ("name"@, n@)
        },
        forall|i: int| 0 <= i < labels@.len() ==> c@.labels[i] == #[trigger] labels@[i]@,
{
    assert forall|i: int| 0 <= i < labels@.len() implies c@.labels[i] == #[trigger] labels@[i]@ by {
        assert(label_texts(labels@)[i] == labels@[i]@);
    }
}

} // verus!
