use huskarl_login::engine::callback::{callback_params, parse_callback_params, CallbackParse};

#[test]
fn valid_code_and_state() {
    assert_eq!(
        parse_callback_params("code=abc&state=xyz"),
        CallbackParse::Valid {
            code: "abc".to_owned(),
            state: "xyz".to_owned(),
            iss: None,
        }
    );
}

#[test]
fn valid_with_iss() {
    assert_eq!(
        parse_callback_params("code=abc&state=xyz&iss=https%3A%2F%2Fas.example.com"),
        CallbackParse::Valid {
            code: "abc".to_owned(),
            state: "xyz".to_owned(),
            iss: Some("https://as.example.com".to_owned()),
        }
    );
}

#[test]
fn auth_server_error_with_description() {
    assert_eq!(
        parse_callback_params("error=access_denied&error_description=user+rejected"),
        CallbackParse::AuthServerError {
            error: "access_denied".to_owned(),
            description: Some("user rejected".to_owned()),
        }
    );
}

#[test]
fn auth_server_error_without_description() {
    assert_eq!(
        parse_callback_params("error=server_error"),
        CallbackParse::AuthServerError {
            error: "server_error".to_owned(),
            description: None,
        }
    );
}

#[test]
fn missing_state_returns_missing() {
    assert!(matches!(
        parse_callback_params("code=abc"),
        CallbackParse::Missing
    ));
}

#[test]
fn missing_code_returns_missing() {
    assert!(matches!(
        parse_callback_params("state=xyz"),
        CallbackParse::Missing
    ));
}

#[test]
fn empty_query_returns_missing() {
    assert!(matches!(parse_callback_params(""), CallbackParse::Missing));
}

#[test]
fn error_takes_priority_over_code_and_state() {
    // Even if code/state are present, an `error` parameter means the AS
    // rejected the flow.
    assert!(matches!(
        parse_callback_params("error=denied&code=abc&state=xyz"),
        CallbackParse::AuthServerError { .. }
    ));
}

#[test]
fn state_with_unsafe_chars_treated_as_missing() {
    assert!(matches!(
        parse_callback_params("code=abc&state=xyz%3Bfoo"),
        CallbackParse::Missing
    ));
}

#[test]
fn empty_state_treated_as_missing() {
    assert!(matches!(
        parse_callback_params("code=abc&state="),
        CallbackParse::Missing
    ));
}

#[test]
fn overlong_state_treated_as_missing() {
    let long = "a".repeat(257);
    let q = format!("code=abc&state={long}");
    assert!(matches!(parse_callback_params(&q), CallbackParse::Missing));
}

#[test]
fn repeated_parameters_are_treated_as_missing() {
    assert!(matches!(
        parse_callback_params("code=abc&state=xyz&state=other"),
        CallbackParse::Missing
    ));
    assert!(matches!(
        parse_callback_params("error=denied&error=denied"),
        CallbackParse::Missing
    ));
}

#[test]
fn unknown_parameters_are_ignored() {
    assert_eq!(
        parse_callback_params("session_state=1&code=abc&session_state=2&state=xyz"),
        CallbackParse::Valid {
            code: "abc".to_owned(),
            state: "xyz".to_owned(),
            iss: None,
        }
    );
}

#[test]
fn parameters_are_read_from_decoded_pairs() {
    let pairs = vec![
        ("state".to_owned(), "xyz".to_owned()),
        ("code".to_owned(), "a b".to_owned()),
    ];
    assert_eq!(
        callback_params(&pairs),
        CallbackParse::Valid {
            code: "a b".to_owned(),
            state: "xyz".to_owned(),
            iss: None,
        }
    );
    assert_eq!(callback_params(&vec![]), CallbackParse::Missing);
}
