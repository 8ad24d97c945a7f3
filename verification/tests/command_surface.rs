use streamer::command::{AuthStatusResponse, IrcTokenResponse, SessionState};
use streamer::device::{DevicePoll, PollEvent, PollPhase};
use streamer::error::AuthError;
use streamer::provider::{DeviceCodeInfo, PollReply};
use streamer::record::{TokenData, TokenGrant};

fn record() -> TokenData {
    TokenData {
        access_token: "the-access".to_string(),
        refresh_token: "the-refresh".to_string(),
        expires_at: 5,
        username: "alice".to_string(),
    }
}

#[test]
fn status_of_a_valid_token_is_authenticated() {
    assert_eq!(
        AuthStatusResponse::from_token_request(Ok(record())),
        AuthStatusResponse { authenticated: true, username: Some("alice".to_string()) }
    );
}

#[test]
fn status_check_swallows_every_failure() {
    for error in [
        AuthError::Io("x".to_string()),
        AuthError::Decode,
        AuthError::NotAuthenticated,
        AuthError::Provider("y".to_string()),
        AuthError::FlowExpired,
    ] {
        assert_eq!(
            AuthStatusResponse::from_token_request(Err(error)),
            AuthStatusResponse { authenticated: false, username: None }
        );
    }
}

#[test]
fn completed_device_flow_is_logged_in() {
    assert_eq!(
        AuthStatusResponse::from_device_flow(Ok(record())),
        Ok(AuthStatusResponse { authenticated: true, username: Some("alice".to_string()) })
    );
}

#[test]
fn failed_device_flow_keeps_its_failure() {
    assert_eq!(
        AuthStatusResponse::from_device_flow(Err(AuthError::FlowExpired)),
        Err(AuthError::FlowExpired)
    );
    assert_eq!(
        AuthStatusResponse::from_device_flow(Err(AuthError::Provider("p".to_string()))),
        Err(AuthError::Provider("p".to_string()))
    );
}

#[test]
fn subsystem_token_is_the_access_token_with_the_identity() {
    assert_eq!(
        IrcTokenResponse::from_token_request(Ok(record())),
        Ok(IrcTokenResponse { token: "the-access".to_string(), username: "alice".to_string() })
    );
}

#[test]
fn subsystem_token_propagates_the_failure() {
    assert_eq!(
        IrcTokenResponse::from_token_request(Err(AuthError::NotAuthenticated)),
        Err(AuthError::NotAuthenticated)
    );
}

#[test]
fn started_device_flow_shows_the_code_and_where_to_enter_it() {
    let started = Ok(DeviceCodeInfo {
        device_code: "abc".to_string(),
        user_code: "WXYZ".to_string(),
        verification_uri: "https://v".to_string(),
        expires_in: 600,
        interval: 5,
    });
    assert_eq!(
        SessionState::after_device_start(&started),
        SessionState::DeviceFlowStarted {
            user_code: "WXYZ".to_string(),
            verification_uri: "https://v".to_string(),
            deadline: 600,
        }
    );
}

#[test]
fn failed_device_start_stays_logged_out() {
    assert_eq!(
        SessionState::after_device_start(&Err(AuthError::Provider("down".to_string()))),
        SessionState::LoggedOut
    );
}

#[test]
fn device_flow_is_polling_until_it_ends() {
    let flow = DevicePoll::begin("abc".to_string(), 5, 600);
    assert_eq!(SessionState::of_device_flow(&flow), SessionState::Polling);
    let flow = flow.step(PollEvent::Woke { elapsed: 5 }, 0);
    assert_eq!(SessionState::of_device_flow(&flow), SessionState::Polling);
    let grant = TokenGrant {
        access_token: "a".to_string(),
        refresh_token: "r".to_string(),
        expires_in: 60,
    };
    let flow = flow.step(PollEvent::Polled(PollReply::Granted(grant)), 0);
    assert_eq!(SessionState::of_device_flow(&flow), SessionState::Polling);
    let flow = flow.step(PollEvent::Validated(Ok("alice".to_string())), 1000);
    assert_eq!(SessionState::of_device_flow(&flow), SessionState::Polling);
    let flow = flow.step(PollEvent::Saved(Ok(())), 1000);
    assert_eq!(
        SessionState::of_device_flow(&flow),
        SessionState::LoggedIn { username: "alice".to_string() }
    );
    let expired = DevicePoll {
        device_code: "abc".to_string(),
        interval: 5,
        expires_in: 600,
        phase: PollPhase::Finished(Err(AuthError::FlowExpired)),
    };
    assert_eq!(SessionState::of_device_flow(&expired), SessionState::LoggedOut);
}
