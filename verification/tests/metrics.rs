use huskarl_login::metrics::{
    emit_counter, known_as_error_codes, normalize_as_error, DecryptResult, Label, LivenessFailure,
    LoginCompleteResult, LoginStartResult, RefreshResult, SupersededDeleteResult,
};

#[test]
fn normalize_as_error_passes_known_codes_through() {
    for code in known_as_error_codes() {
        assert_eq!(normalize_as_error(code), code);
    }
}

#[test]
fn normalize_as_error_maps_unknown_to_other() {
    for input in [
        "",
        "not_a_real_code",
        "ACCESS_DENIED", // case-sensitive: not the registered code
        "access_denied ",
        "access_denied\n",
        "a]b{c}", // label-syntax metacharacters
    ] {
        assert_eq!(normalize_as_error(input), "other", "input: {input:?}");
    }
}

#[test]
fn normalize_as_error_rejects_oversized_input() {
    let long = "a".repeat(64 * 1024);
    assert_eq!(normalize_as_error(&long), "other");
}

#[test]
fn instance_name_is_the_last_label() {
    let c = emit_counter("huskarl.login.start", vec![Label::new("outcome", "ok")], Some("main"));
    assert_eq!(c.name, "huskarl.login.start");
    assert_eq!(c.labels.len(), 2);
    assert_eq!(c.labels[0].key, "outcome");
    assert_eq!(c.labels[0].value, "ok");
    assert_eq!(c.labels[1].key, "name");
    assert_eq!(c.labels[1].value, "main");
    let c = emit_counter("huskarl.login.start", vec![], None);
    assert!(c.labels.is_empty());
}

#[test]
fn outcomes_have_snake_case_labels() {
    assert_eq!(DecryptResult::Success.as_str(), "ok");
    assert_eq!(DecryptResult::BadEncoding.as_str(), "bad_encoding");
    assert_eq!(DecryptResult::DecryptFailed.as_str(), "decrypt_failed");
    assert_eq!(DecryptResult::PayloadInvalid.as_str(), "payload_invalid");
    assert_eq!(LoginStartResult::Success.as_str(), "ok");
    assert_eq!(LoginStartResult::Error.as_str(), "error");
    assert_eq!(LoginCompleteResult::Success.as_str(), "ok");
    assert_eq!(
        LoginCompleteResult::AlreadyAuthenticated.as_str(),
        "already_authenticated"
    );
    assert_eq!(LoginCompleteResult::AsDenied.as_str(), "as_denied");
    assert_eq!(LoginCompleteResult::InvalidRequest.as_str(), "invalid_request");
    assert_eq!(LoginCompleteResult::StateInvalid.as_str(), "state_invalid");
    assert_eq!(
        LoginCompleteResult::TokenExchangeFailed.as_str(),
        "token_exchange_failed"
    );
    assert_eq!(
        LoginCompleteResult::SessionCreateFailed.as_str(),
        "session_create_failed"
    );
    assert_eq!(RefreshResult::Success.as_str(), "ok");
    assert_eq!(RefreshResult::Failed.as_str(), "failed");
    assert_eq!(RefreshResult::FailedRetained.as_str(), "failed_retained");
    assert_eq!(RefreshResult::FailedUnavailable.as_str(), "failed_unavailable");
    assert_eq!(RefreshResult::NoRefreshToken.as_str(), "no_refresh_token");
    assert_eq!(SupersededDeleteResult::Deleted.as_str(), "deleted");
    assert_eq!(LivenessFailure::Read.as_str(), "read");
}
