use streamer::error::AuthError;

#[test]
fn io_failure_shows_the_reason() {
    assert_eq!(AuthError::Io("disk full".to_string()).message(), "disk full");
}

#[test]
fn decode_failure_has_a_fixed_message() {
    assert_eq!(AuthError::Decode.message(), "Malformed credential data");
}

#[test]
fn missing_record_reads_not_authenticated() {
    assert_eq!(AuthError::NotAuthenticated.message(), "Not authenticated");
}

#[test]
fn provider_failure_shows_the_reason() {
    assert_eq!(
        AuthError::Provider("Token refresh failed: nope".to_string()).message(),
        "Token refresh failed: nope"
    );
}

#[test]
fn expired_flow_asks_to_try_again() {
    assert_eq!(
        AuthError::FlowExpired.message(),
        "Device code expired \u{2014} please try again"
    );
}

#[test]
fn error_clone_is_equal() {
    let errors = vec![
        AuthError::Io("x".to_string()),
        AuthError::Decode,
        AuthError::NotAuthenticated,
        AuthError::Provider("y".to_string()),
        AuthError::FlowExpired,
    ];
    for error in errors {
        assert_eq!(error.clone(), error);
    }
}
