use streamer::error::AuthError;
use streamer::http::{pair, status_is_success, HttpMethod, HttpOutcome, HttpRequest};
use streamer::provider::{
    decode_device_info, decode_grant, device_info_from_members, grant_from_members,
    interpret_device_start, interpret_poll, interpret_refresh, interpret_validate,
    login_from_member, poll_refusal_from, DeviceCodeInfo, PollReply, Provider, CLIENT_ID,
    DEVICE_URL, REVOKE_URL, SCOPES, TOKEN_URL, VALIDATE_URL,
};
use streamer::record::TokenGrant;

fn provider() -> Provider {
    Provider { client_id: "client-1".to_string(), scopes: "chat:read chat:edit".to_string() }
}

fn reply(status: u16, body: &str) -> HttpOutcome {
    HttpOutcome::Reply { status, body: body.to_string() }
}

fn strings(pairs: &[(&str, &str)]) -> Vec<(String, String)> {
    pairs.iter().map(|(name, value)| (name.to_string(), value.to_string())).collect()
}

#[test]
fn standard_provider_is_this_application() {
    let standard = Provider::standard();
    assert_eq!(standard.client_id, CLIENT_ID);
    assert_eq!(standard.scopes, SCOPES);
    assert_eq!(CLIENT_ID, "yu2txwsc619qgqaghrv1xzf66swhad");
    assert!(SCOPES.starts_with("chat:read chat:edit moderator:read:followers"));
    assert!(SCOPES.ends_with("channel:read:redemptions"));
}

#[test]
fn success_is_the_2xx_class() {
    assert!(!status_is_success(199));
    assert!(status_is_success(200));
    assert!(status_is_success(204));
    assert!(status_is_success(299));
    assert!(!status_is_success(300));
    assert!(!status_is_success(400));
    assert!(!status_is_success(401));
    assert!(!status_is_success(0));
    assert!(!status_is_success(u16::MAX));
}

#[test]
fn pair_owns_both_strings() {
    assert_eq!(pair("name", "value"), ("name".to_string(), "value".to_string()));
}

#[test]
fn post_form_has_no_headers() {
    let request = HttpRequest::post_form("https://example.test/x", strings(&[("a", "1")]));
    assert_eq!(
        request,
        HttpRequest {
            method: HttpMethod::Post,
            url: "https://example.test/x".to_string(),
            headers: vec![],
            form: strings(&[("a", "1")]),
        }
    );
}

#[test]
fn get_has_no_form() {
    let request = HttpRequest::get("https://example.test/y", strings(&[("H", "v")]));
    assert_eq!(
        request,
        HttpRequest {
            method: HttpMethod::Get,
            url: "https://example.test/y".to_string(),
            headers: strings(&[("H", "v")]),
            form: vec![],
        }
    );
}

#[test]
fn device_request_posts_client_and_scopes() {
    let request = provider().device_request();
    assert_eq!(request.method, HttpMethod::Post);
    assert_eq!(request.url, DEVICE_URL);
    assert_eq!(request.url, "https://id.twitch.tv/oauth2/device");
    assert!(request.headers.is_empty());
    assert_eq!(
        request.form,
        strings(&[("client_id", "client-1"), ("scopes", "chat:read chat:edit")])
    );
}

#[test]
fn poll_request_posts_device_code_grant() {
    let request = provider().poll_request("dev-123");
    assert_eq!(request.method, HttpMethod::Post);
    assert_eq!(request.url, TOKEN_URL);
    assert_eq!(request.url, "https://id.twitch.tv/oauth2/token");
    assert!(request.headers.is_empty());
    assert_eq!(
        request.form,
        strings(&[
            ("client_id", "client-1"),
            ("scopes", "chat:read chat:edit"),
            ("device_code", "dev-123"),
            ("grant_type", "urn:ietf:params:oauth:grant-type:device_code"),
        ])
    );
}

#[test]
fn refresh_request_posts_refresh_grant() {
    let request = provider().refresh_request("old-refresh");
    assert_eq!(request.method, HttpMethod::Post);
    assert_eq!(request.url, TOKEN_URL);
    assert!(request.headers.is_empty());
    assert_eq!(
        request.form,
        strings(&[
            ("client_id", "client-1"),
            ("refresh_token", "old-refresh"),
            ("grant_type", "refresh_token"),
        ])
    );
}

#[test]
fn validate_request_carries_the_token_in_a_header() {
    let request = Provider::validate_request("tok");
    assert_eq!(request.method, HttpMethod::Get);
    assert_eq!(request.url, VALIDATE_URL);
    assert_eq!(request.url, "https://id.twitch.tv/oauth2/validate");
    assert_eq!(request.headers, strings(&[("Authorization", "OAuth tok")]));
    assert!(request.form.is_empty());
}

#[test]
fn revoke_request_posts_client_and_token() {
    let request = provider().revoke_request("tok");
    assert_eq!(request.method, HttpMethod::Post);
    assert_eq!(request.url, REVOKE_URL);
    assert_eq!(request.url, "https://id.twitch.tv/oauth2/revoke");
    assert!(request.headers.is_empty());
    assert_eq!(request.form, strings(&[("client_id", "client-1"), ("token", "tok")]));
}

#[test]
fn grant_needs_all_three_members() {
    assert_eq!(
        grant_from_members(Some("a".to_string()), Some("r".to_string()), Some(60)),
        Ok(TokenGrant {
            access_token: "a".to_string(),
            refresh_token: "r".to_string(),
            expires_in: 60,
        })
    );
    assert_eq!(
        grant_from_members(None, Some("r".to_string()), Some(60)),
        Err(AuthError::Decode)
    );
    assert_eq!(
        grant_from_members(Some("a".to_string()), None, Some(60)),
        Err(AuthError::Decode)
    );
    assert_eq!(
        grant_from_members(Some("a".to_string()), Some("r".to_string()), None),
        Err(AuthError::Decode)
    );
}

#[test]
fn grant_is_decoded_from_a_token_response() {
    let body = r#"{"access_token":"new-a","expires_in":14124,"refresh_token":"new-r","scope":["chat:read"],"token_type":"bearer"}"#;
    assert_eq!(
        decode_grant(body),
        Ok(TokenGrant {
            access_token: "new-a".to_string(),
            refresh_token: "new-r".to_string(),
            expires_in: 14124,
        })
    );
}

#[test]
fn grant_decoding_refuses_malformed_bodies() {
    assert_eq!(decode_grant(""), Err(AuthError::Decode));
    assert_eq!(decode_grant("<html>"), Err(AuthError::Decode));
    assert_eq!(decode_grant(r#"{"access_token":"a","refresh_token":"r"}"#), Err(AuthError::Decode));
    assert_eq!(
        decode_grant(r#"{"access_token":"a","refresh_token":"r","expires_in":"60"}"#),
        Err(AuthError::Decode)
    );
    assert_eq!(
        decode_grant(r#"{"access_token":null,"refresh_token":"r","expires_in":60}"#),
        Err(AuthError::Decode)
    );
}

#[test]
fn device_info_needs_all_five_members() {
    let full = device_info_from_members(
        Some("d".to_string()),
        Some("u".to_string()),
        Some("v".to_string()),
        Some(600),
        Some(5),
    );
    assert_eq!(
        full,
        Ok(DeviceCodeInfo {
            device_code: "d".to_string(),
            user_code: "u".to_string(),
            verification_uri: "v".to_string(),
            expires_in: 600,
            interval: 5,
        })
    );
    let s = |text: &str| Some(text.to_string());
    assert_eq!(
        device_info_from_members(None, s("u"), s("v"), Some(600), Some(5)),
        Err(AuthError::Decode)
    );
    assert_eq!(
        device_info_from_members(s("d"), None, s("v"), Some(600), Some(5)),
        Err(AuthError::Decode)
    );
    assert_eq!(
        device_info_from_members(s("d"), s("u"), None, Some(600), Some(5)),
        Err(AuthError::Decode)
    );
    assert_eq!(
        device_info_from_members(s("d"), s("u"), s("v"), None, Some(5)),
        Err(AuthError::Decode)
    );
    assert_eq!(
        device_info_from_members(s("d"), s("u"), s("v"), Some(600), None),
        Err(AuthError::Decode)
    );
}

#[test]
fn device_info_is_decoded_from_a_device_response() {
    let body = r#"{"device_code":"abc","expires_in":1800,"interval":5,"user_code":"WXYZ","verification_uri":"https://www.twitch.tv/activate?device-code=WXYZ"}"#;
    assert_eq!(
        decode_device_info(body),
        Ok(DeviceCodeInfo {
            device_code: "abc".to_string(),
            user_code: "WXYZ".to_string(),
            verification_uri: "https://www.twitch.tv/activate?device-code=WXYZ".to_string(),
            expires_in: 1800,
            interval: 5,
        })
    );
}

#[test]
fn device_info_decoding_refuses_negative_numbers() {
    let body = r#"{"device_code":"abc","expires_in":-1,"interval":5,"user_code":"WXYZ","verification_uri":"v"}"#;
    assert_eq!(decode_device_info(body), Err(AuthError::Decode));
}

#[test]
fn device_start_success_yields_the_device_code() {
    let body = r#"{"device_code":"abc","expires_in":600,"interval":5,"user_code":"WXYZ","verification_uri":"https://v"}"#;
    assert_eq!(
        interpret_device_start(reply(200, body)),
        Ok(DeviceCodeInfo {
            device_code: "abc".to_string(),
            user_code: "WXYZ".to_string(),
            verification_uri: "https://v".to_string(),
            expires_in: 600,
            interval: 5,
        })
    );
}

#[test]
fn device_start_refusal_surfaces_the_body() {
    assert_eq!(
        interpret_device_start(reply(400, "{\"status\":400,\"message\":\"invalid client\"}")),
        Err(AuthError::Provider(
            "Device code request failed: {\"status\":400,\"message\":\"invalid client\"}"
                .to_string()
        ))
    );
    assert_eq!(
        interpret_device_start(reply(500, "")),
        Err(AuthError::Provider("Device code request failed: ".to_string()))
    );
}

#[test]
fn device_start_malformed_success_is_a_decode_failure() {
    assert_eq!(interpret_device_start(reply(200, "oops")), Err(AuthError::Decode));
    assert_eq!(
        interpret_device_start(reply(200, r#"{"device_code":"abc","user_code":"WXYZ","expires_in":600,"interval":5}"#)),
        Err(AuthError::Decode)
    );
}

#[test]
fn device_start_transport_failure_carries_the_reason() {
    assert_eq!(
        interpret_device_start(HttpOutcome::Failed("connection refused".to_string())),
        Err(AuthError::Provider("connection refused".to_string()))
    );
}

#[test]
fn poll_success_is_a_grant() {
    let body = r#"{"access_token":"a","refresh_token":"r","expires_in":3600}"#;
    assert_eq!(
        interpret_poll(reply(200, body)),
        PollReply::Granted(TokenGrant {
            access_token: "a".to_string(),
            refresh_token: "r".to_string(),
            expires_in: 3600,
        })
    );
}

#[test]
fn poll_pending_keeps_waiting() {
    let body = r#"{"status":400,"message":"authorization_pending"}"#;
    assert_eq!(interpret_poll(reply(400, body)), PollReply::Pending);
}

#[test]
fn poll_other_message_ends_the_flow() {
    let body = r#"{"status":400,"message":"invalid device code"}"#;
    assert_eq!(
        interpret_poll(reply(400, body)),
        PollReply::Failed(AuthError::Provider("Device auth failed: invalid device code".to_string()))
    );
}

#[test]
fn poll_body_without_message_is_surfaced_whole() {
    assert_eq!(
        interpret_poll(reply(502, "Bad Gateway")),
        PollReply::Failed(AuthError::Provider("Device auth failed: Bad Gateway".to_string()))
    );
    assert_eq!(
        interpret_poll(reply(400, r#"{"message":42}"#)),
        PollReply::Failed(AuthError::Provider("Device auth failed: {\"message\":42}".to_string()))
    );
}

#[test]
fn poll_malformed_success_is_a_decode_failure() {
    assert_eq!(interpret_poll(reply(200, "{}")), PollReply::Failed(AuthError::Decode));
}

#[test]
fn poll_pending_on_a_success_status_is_not_pending() {
    let body = r#"{"message":"authorization_pending"}"#;
    assert_eq!(interpret_poll(reply(200, body)), PollReply::Failed(AuthError::Decode));
}

#[test]
fn poll_transport_failure_carries_the_reason() {
    assert_eq!(
        interpret_poll(HttpOutcome::Failed("timed out".to_string())),
        PollReply::Failed(AuthError::Provider("timed out".to_string()))
    );
}

#[test]
fn poll_refusal_distinguishes_pending_from_the_rest() {
    assert_eq!(
        poll_refusal_from(Some("authorization_pending".to_string()), "ignored"),
        PollReply::Pending
    );
    assert_eq!(
        poll_refusal_from(Some("authorization_pending ".to_string()), "ignored"),
        PollReply::Failed(AuthError::Provider(
            "Device auth failed: authorization_pending ".to_string()
        ))
    );
    assert_eq!(
        poll_refusal_from(Some(String::new()), "body"),
        PollReply::Failed(AuthError::Provider("Device auth failed: ".to_string()))
    );
    assert_eq!(
        poll_refusal_from(None, "body"),
        PollReply::Failed(AuthError::Provider("Device auth failed: body".to_string()))
    );
}

#[test]
fn refresh_success_is_a_grant() {
    let body = r#"{"access_token":"a2","refresh_token":"r2","expires_in":100}"#;
    assert_eq!(
        interpret_refresh(reply(200, body)),
        Ok(TokenGrant {
            access_token: "a2".to_string(),
            refresh_token: "r2".to_string(),
            expires_in: 100,
        })
    );
}

#[test]
fn refresh_refusal_is_a_hard_failure() {
    assert_eq!(
        interpret_refresh(reply(400, "{\"message\":\"Invalid refresh token\"}")),
        Err(AuthError::Provider(
            "Token refresh failed: {\"message\":\"Invalid refresh token\"}".to_string()
        ))
    );
    assert_eq!(
        interpret_refresh(reply(401, r#"{"access_token":"a2","refresh_token":"r2","expires_in":100}"#)),
        Err(AuthError::Provider(
            "Token refresh failed: {\"access_token\":\"a2\",\"refresh_token\":\"r2\",\"expires_in\":100}"
                .to_string()
        ))
    );
}

#[test]
fn refresh_malformed_success_is_a_decode_failure() {
    assert_eq!(interpret_refresh(reply(200, "[]")), Err(AuthError::Decode));
}

#[test]
fn refresh_transport_failure_carries_the_reason() {
    assert_eq!(
        interpret_refresh(HttpOutcome::Failed("dns".to_string())),
        Err(AuthError::Provider("dns".to_string()))
    );
}

#[test]
fn validate_success_is_the_login() {
    let body = r#"{"client_id":"c","login":"alice","scopes":[],"user_id":"1","expires_in":5000}"#;
    assert_eq!(interpret_validate(reply(200, body)), Ok("alice".to_string()));
}

#[test]
fn validate_refusal_has_a_fixed_reason() {
    assert_eq!(
        interpret_validate(reply(401, r#"{"status":401,"message":"invalid access token"}"#)),
        Err(AuthError::Provider("Token validation failed".to_string()))
    );
}

#[test]
fn validate_without_login_is_a_decode_failure() {
    assert_eq!(interpret_validate(reply(200, r#"{"user_id":"1"}"#)), Err(AuthError::Decode));
    assert_eq!(interpret_validate(reply(200, r#"{"login":1}"#)), Err(AuthError::Decode));
}

#[test]
fn validate_transport_failure_carries_the_reason() {
    assert_eq!(
        interpret_validate(HttpOutcome::Failed("reset".to_string())),
        Err(AuthError::Provider("reset".to_string()))
    );
}

#[test]
fn login_member_is_required() {
    assert_eq!(login_from_member(Some("bob".to_string())), Ok("bob".to_string()));
    assert_eq!(login_from_member(None), Err(AuthError::Decode));
}
