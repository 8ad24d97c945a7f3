use streamer::error::AuthError;
use streamer::helix::{
    build_request, interpret_body, interpret_get, interpret_subscribe, resolve_url, HelixVerdict,
    EVENTSUB_URL, HELIX_ROOT, UNAUTHORIZED,
};
use streamer::http::{HttpMethod, HttpOutcome};

fn reply(status: u16, body: &str) -> HttpOutcome {
    HttpOutcome::Reply { status, body: body.to_string() }
}

#[test]
fn relative_path_is_resolved_under_the_root() {
    assert_eq!(HELIX_ROOT, "https://api.twitch.tv/helix");
    assert_eq!(resolve_url("/users?login=alice"), "https://api.twitch.tv/helix/users?login=alice");
    assert_eq!(resolve_url(""), "https://api.twitch.tv/helix");
    assert_eq!(resolve_url("users"), "https://api.twitch.tv/helixusers");
}

#[test]
fn absolute_address_is_kept() {
    assert_eq!(resolve_url("https://example.test/x"), "https://example.test/x");
    assert_eq!(resolve_url("https://"), "https://");
}

#[test]
fn other_schemes_are_not_absolute() {
    assert_eq!(resolve_url("http://example.test"), "https://api.twitch.tv/helixhttp://example.test");
    assert_eq!(resolve_url("https:/x"), "https://api.twitch.tv/helixhttps:/x");
    assert_eq!(resolve_url("HTTPS://x"), "https://api.twitch.tv/helixHTTPS://x");
    assert_eq!(resolve_url(" https://x"), "https://api.twitch.tv/helix https://x");
}

#[test]
fn request_carries_client_id_and_bearer_token() {
    let request = build_request("https://api.twitch.tv/helix/users", "client-1", "tok");
    assert_eq!(request.method, HttpMethod::Get);
    assert_eq!(request.url, "https://api.twitch.tv/helix/users");
    assert_eq!(
        request.headers,
        vec![
            ("Client-Id".to_string(), "client-1".to_string()),
            ("Authorization".to_string(), "Bearer tok".to_string()),
        ]
    );
    assert!(request.form.is_empty());
}

#[test]
fn rejected_token_is_retried_once() {
    assert_eq!(UNAUTHORIZED, 401);
    assert_eq!(interpret_get(reply(401, "expired"), true), HelixVerdict::Retry);
    assert_eq!(
        interpret_get(reply(401, "expired"), false),
        HelixVerdict::Done(Err(AuthError::Provider("Helix GET failed: expired".to_string())))
    );
}

#[test]
fn success_is_the_body() {
    assert_eq!(
        interpret_get(reply(200, "{\"data\":[]}"), true),
        HelixVerdict::Done(Ok("{\"data\":[]}".to_string()))
    );
    assert_eq!(
        interpret_get(reply(200, "{\"data\":[]}"), false),
        HelixVerdict::Done(Ok("{\"data\":[]}".to_string()))
    );
}

#[test]
fn other_refusals_are_final() {
    assert_eq!(
        interpret_get(reply(404, "nope"), true),
        HelixVerdict::Done(Err(AuthError::Provider("Helix GET failed: nope".to_string())))
    );
    assert_eq!(
        interpret_get(reply(403, ""), true),
        HelixVerdict::Done(Err(AuthError::Provider("Helix GET failed: ".to_string())))
    );
    assert_eq!(
        interpret_get(HttpOutcome::Failed("offline".to_string()), true),
        HelixVerdict::Done(Err(AuthError::Provider("offline".to_string())))
    );
}

#[test]
fn body_reader_prefixes_refusals() {
    assert_eq!(interpret_body(reply(204, ""), "X: "), Ok(String::new()));
    assert_eq!(
        interpret_body(reply(500, "boom"), "X: "),
        Err(AuthError::Provider("X: boom".to_string()))
    );
}

#[test]
fn subscription_answer_is_read_with_its_own_prefix() {
    assert_eq!(EVENTSUB_URL, "https://api.twitch.tv/helix/eventsub/subscriptions");
    assert_eq!(interpret_subscribe(reply(202, "{\"data\":[1]}")), Ok("{\"data\":[1]}".to_string()));
    assert_eq!(
        interpret_subscribe(reply(401, "bad")),
        Err(AuthError::Provider("EventSub subscribe failed: bad".to_string()))
    );
    assert_eq!(
        interpret_subscribe(HttpOutcome::Failed("offline".to_string())),
        Err(AuthError::Provider("offline".to_string()))
    );
}
