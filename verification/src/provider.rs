//! The provider client: the requests of the device-authorization protocol
//! and the reading of the provider's answers. Stateless; one request and
//! one answer per operation.

use vstd::prelude::*;
use crate::error::{AuthError, AuthErrorView};
use crate::http::{
    is_success, pair, status_is_success, HttpMethod, HttpOutcome, HttpOutcomeView, HttpRequest,
    HttpRequestView,
};
use crate::json::{
    i64_member, json_i64_member, json_text_member, json_u64_member, text_member, text_view,
    u64_member,
};
use crate::record::{TokenGrant, TokenGrantView};

verus! {

/// Endpoint that starts a device authorization.
pub const DEVICE_URL: &'static str = "https://id.twitch.tv/oauth2/device";

/// Endpoint that exchanges a device code or a refresh token for tokens.
pub const TOKEN_URL: &'static str = "https://id.twitch.tv/oauth2/token";

/// Endpoint that resolves the identity bound to an access token.
pub const VALIDATE_URL: &'static str = "https://id.twitch.tv/oauth2/validate";

/// Endpoint that revokes an access token.
pub const REVOKE_URL: &'static str = "https://id.twitch.tv/oauth2/revoke";

/// Client id this application is registered under.
pub const CLIENT_ID: &'static str = "yu2txwsc619qgqaghrv1xzf66swhad";

/// Scopes this application asks for.
pub const SCOPES: &'static str =
    "chat:read chat:edit moderator:read:followers user:read:chat channel:read:subscriptions bits:read channel:manage:broadcast channel:read:redemptions";

/// Grant type of the device-code exchange.
pub const DEVICE_GRANT_TYPE: &'static str = "urn:ietf:params:oauth:grant-type:device_code";

/// Grant type of the refresh exchange.
pub const REFRESH_GRANT_TYPE: &'static str = "refresh_token";

/// The error message with which the provider says that the user has not
/// authorised the device yet.
pub const AUTHORIZATION_PENDING: &'static str = "authorization_pending";

/// The registration under which requests are made.
#[derive(Debug, Clone, PartialEq, Eq)]
pub struct Provider {
    pub client_id: String,
    pub scopes: String,
}

/// Mathematical model of a [`Provider`].
pub struct ProviderView {
    pub client_id: Seq<char>,
    pub scopes: Seq<char>,
}

impl View for Provider {
    type V = ProviderView;

    open spec fn view(&self) -> ProviderView {
        ProviderView { client_id: self.client_id@, scopes: self.scopes@ }
    }
}

/// What the provider returns when a device authorization starts.
#[derive(Debug, Clone, PartialEq, Eq)]
pub struct DeviceCodeInfo {
    pub device_code: String,
    pub user_code: String,
    pub verification_uri: String,
    /// Seconds until the device code expires.
    pub expires_in: u64,
    /// Seconds the provider asks to wait between polls.
    pub interval: u64,
}

/// Mathematical model of a [`DeviceCodeInfo`].
pub struct DeviceCodeInfoView {
    pub device_code: Seq<char>,
    pub user_code: Seq<char>,
    pub verification_uri: Seq<char>,
    pub expires_in: u64,
    pub interval: u64,
}

impl View for DeviceCodeInfo {
    type V = DeviceCodeInfoView;

    open spec fn view(&self) -> DeviceCodeInfoView {
        DeviceCodeInfoView {
            device_code: self.device_code@,
            user_code: self.user_code@,
            verification_uri: self.verification_uri@,
            expires_in: self.expires_in,
            interval: self.interval,
        }
    }
}

/// The answer to one poll of the token endpoint.
#[derive(Debug, Clone, PartialEq, Eq)]
pub enum PollReply {
    /// The user authorised the device.
    Granted(TokenGrant),
    /// The user has not authorised the device yet: keep waiting.
    Pending,
    /// The flow cannot complete.
    Failed(AuthError),
}

/// Mathematical model of a [`PollReply`].
pub enum PollReplyView {
    Granted(TokenGrantView),
    Pending,
    Failed(AuthErrorView),
}

impl View for PollReply {
    type V = PollReplyView;

    open spec fn view(&self) -> PollReplyView {
        match self {
            PollReply::Granted(grant) => PollReplyView::Granted(grant@),
            PollReply::Pending => PollReplyView::Pending,
            PollReply::Failed(error) => PollReplyView::Failed(error@),
        }
    }
}

/// Model of a grant or the failure to get one.
pub open spec fn grant_result_view(result: Result<TokenGrant, AuthError>) -> Result<
    TokenGrantView,
    AuthErrorView,
> {
    match result {
        Ok(grant) => Ok(grant@),
        Err(error) => Err(error@),
    }
}

/// Model of a string or the failure to get one.
pub open spec fn text_result_view(result: Result<String, AuthError>) -> Result<
    Seq<char>,
    AuthErrorView,
> {
    match result {
        Ok(text) => Ok(text@),
        Err(error) => Err(error@),
    }
}

/// Model of a device code or the failure to get one.
pub open spec fn device_result_view(result: Result<DeviceCodeInfo, AuthError>) -> Result<
    DeviceCodeInfoView,
    AuthErrorView,
> {
    match result {
        Ok(info) => Ok(info@),
        Err(error) => Err(error@),
    }
}

// ---------------------------------------------------------------------------
// Requests
// ---------------------------------------------------------------------------

/// The request that starts a device authorization.
pub open spec fn device_request(provider: ProviderView) -> HttpRequestView {
    HttpRequestView {
        method: HttpMethod::Post,
        url: DEVICE_URL@,
        headers: Seq::empty(),
        form: seq![("client_id"@, provider.client_id), ("scopes"@, provider.scopes)],
    }
}

/// The request that polls for the user's authorization of `device_code`.
pub open spec fn poll_request(provider: ProviderView, device_code: Seq<char>) -> HttpRequestView {
    HttpRequestView {
        method: HttpMethod::Post,
        url: TOKEN_URL@,
        headers: Seq::empty(),
        form: seq![
            ("client_id"@, provider.client_id),
            ("scopes"@, provider.scopes),
            ("device_code"@, device_code),
            ("grant_type"@, DEVICE_GRANT_TYPE@),
        ],
    }
}

/// The request that exchanges `refresh_token` for a new token pair.
pub open spec fn refresh_request(provider: ProviderView, refresh_token: Seq<char>) -> HttpRequestView {
    HttpRequestView {
        method: HttpMethod::Post,
        url: TOKEN_URL@,
        headers: Seq::empty(),
        form: seq![
            ("client_id"@, provider.client_id),
            ("refresh_token"@, refresh_token),
            ("grant_type"@, REFRESH_GRANT_TYPE@),
        ],
    }
}

/// The request that resolves the identity bound to `access_token`.
pub open spec fn validate_request(access_token: Seq<char>) -> HttpRequestView {
    HttpRequestView {
        method: HttpMethod::Get,
        url: VALIDATE_URL@,
        headers: seq![("Authorization"@, "OAuth "@ + access_token)],
        form: Seq::empty(),
    }
}

/// The request that revokes `access_token`.
pub open spec fn revoke_request(provider: ProviderView, access_token: Seq<char>) -> HttpRequestView {
    HttpRequestView {
        method: HttpMethod::Post,
        url: REVOKE_URL@,
        headers: Seq::empty(),
        form: seq![("client_id"@, provider.client_id), ("token"@, access_token)],
    }
}

impl Provider {
    /// The registration of this application.
    pub fn standard() -> (provider: Provider)
        ensures
            provider@ == (ProviderView { client_id: CLIENT_ID@, scopes: SCOPES@ }),
    {
        Provider { client_id: String::from_str(CLIENT_ID), scopes: String::from_str(SCOPES) }
    }

    /// Builds the request that starts a device authorization.
    pub fn device_request(&self) -> (request: HttpRequest)
        ensures
            request@ == device_request(self@),
    {
        let mut form: Vec<(String, String)> = Vec::new();
        form.push(pair("client_id", self.client_id.as_str()));
        form.push(pair("scopes", self.scopes.as_str()));
        let request = HttpRequest::post_form(DEVICE_URL, form);
        assert(request@.form =~= device_request(self@).form);
        request
    }

    /// Builds the request for one poll of the token endpoint.
    pub fn poll_request(&self, device_code: &str) -> (request: HttpRequest)
        ensures
            request@ == poll_request(self@, device_code@),
    {
        let mut form: Vec<(String, String)> = Vec::new();
        form.push(pair("client_id", self.client_id.as_str()));
        form.push(pair("scopes", self.scopes.as_str()));
        form.push(pair("device_code", device_code));
        form.push(pair("grant_type", DEVICE_GRANT_TYPE));
        let request = HttpRequest::post_form(TOKEN_URL, form);
        assert(request@.form =~= poll_request(self@, device_code@).form);
        request
    }

    /// Builds the request that refreshes a token pair.
    pub fn refresh_request(&self, refresh_token: &str) -> (request: HttpRequest)
        ensures
            request@ == refresh_request(self@, refresh_token@),
    {
        let mut form: Vec<(String, String)> = Vec::new();
        form.push(pair("client_id", self.client_id.as_str()));
        form.push(pair("refresh_token", refresh_token));
        form.push(pair("grant_type", REFRESH_GRANT_TYPE));
        let request = HttpRequest::post_form(TOKEN_URL, form);
        assert(request@.form =~= refresh_request(self@, refresh_token@).form);
        request
    }

    /// Builds the request that validates an access token.
    pub fn validate_request(access_token: &str) -> (request: HttpRequest)
        ensures
            request@ == validate_request(access_token@),
    {
        let mut headers: Vec<(String, String)> = Vec::new();
        let credential = String::from_str("OAuth ").concat(access_token);
        headers.push(pair("Authorization", credential.as_str()));
        let request = HttpRequest::get(VALIDATE_URL, headers);
        assert(request@.headers =~= validate_request(access_token@).headers);
        request
    }

    /// Builds the request that revokes an access token.
    pub fn revoke_request(&self, access_token: &str) -> (request: HttpRequest)
        ensures
            request@ == revoke_request(self@, access_token@),
    {
        let mut form: Vec<(String, String)> = Vec::new();
        form.push(pair("client_id", self.client_id.as_str()));
        form.push(pair("token", access_token));
        let request = HttpRequest::post_form(REVOKE_URL, form);
        assert(request@.form =~= revoke_request(self@, access_token@).form);
        request
    }
}


// ---------------------------------------------------------------------------
// Answers
// ---------------------------------------------------------------------------

/// The failure reported when the provider could not be reached or refused
/// with a status outside the 2xx class: the transport's reason, or `prefix`
/// followed by the response body.
pub open spec fn refusal(outcome: HttpOutcomeView, prefix: Seq<char>) -> AuthErrorView {
    match outcome {
        HttpOutcomeView::Failed(reason) => AuthErrorView::Provider(reason),
        HttpOutcomeView::Reply { status, body } => AuthErrorView::Provider(prefix + body),
    }
}

/// Whether the provider answered with a status in the 2xx class.
pub open spec fn accepted(outcome: HttpOutcomeView) -> bool {
    outcome matches HttpOutcomeView::Reply { status, body } && is_success(status)
}

/// The token pair made of the three members of a token response, where all
/// of them are present.
pub open spec fn grant_of(
    access_token: Option<Seq<char>>,
    refresh_token: Option<Seq<char>>,
    expires_in: Option<i64>,
) -> Result<TokenGrantView, AuthErrorView> {
    if access_token is Some && refresh_token is Some && expires_in is Some {
        Ok(
            TokenGrantView {
                access_token: access_token->0,
                refresh_token: refresh_token->0,
                expires_in: expires_in->0 as int,
            },
        )
    } else {
        Err(AuthErrorView::Decode)
    }
}

/// The token pair that a token response body decodes to.
pub open spec fn decoded_grant(body: Seq<char>) -> Result<TokenGrantView, AuthErrorView> {
    grant_of(
        json_text_member(body, "access_token"@),
        json_text_member(body, "refresh_token"@),
        json_i64_member(body, "expires_in"@),
    )
}

/// The device code made of the five members of a device response, where
/// all of them are present.
pub open spec fn device_info_of(
    device_code: Option<Seq<char>>,
    user_code: Option<Seq<char>>,
    verification_uri: Option<Seq<char>>,
    expires_in: Option<u64>,
    interval: Option<u64>,
) -> Result<DeviceCodeInfoView, AuthErrorView> {
    if device_code is Some && user_code is Some && verification_uri is Some && expires_in is Some
        && interval is Some {
        Ok(
            DeviceCodeInfoView {
                device_code: device_code->0,
                user_code: user_code->0,
                verification_uri: verification_uri->0,
                expires_in: expires_in->0,
                interval: interval->0,
            },
        )
    } else {
        Err(AuthErrorView::Decode)
    }
}

/// The device code that a device response body decodes to.
pub open spec fn decoded_device_info(body: Seq<char>) -> Result<DeviceCodeInfoView, AuthErrorView> {
    device_info_of(
        json_text_member(body, "device_code"@),
        json_text_member(body, "user_code"@),
        json_text_member(body, "verification_uri"@),
        json_u64_member(body, "expires_in"@),
        json_u64_member(body, "interval"@),
    )
}

/// The identity read from the `login` member of a validation response.
pub open spec fn login_of(login: Option<Seq<char>>) -> Result<Seq<char>, AuthErrorView> {
    match login {
        Some(login) => Ok(login),
        None => Err(AuthErrorView::Decode),
    }
}

/// What a refused poll means, given the `message` member of the response
/// body if it has one: the pending signal keeps the flow waiting, any other
/// message ends it, and so does a body without a message.
pub open spec fn poll_refusal(message: Option<Seq<char>>, body: Seq<char>) -> PollReplyView {
    match message {
        Some(message) => if message == AUTHORIZATION_PENDING@ {
            PollReplyView::Pending
        } else {
            PollReplyView::Failed(AuthErrorView::Provider("Device auth failed: "@ + message))
        },
        None => PollReplyView::Failed(AuthErrorView::Provider("Device auth failed: "@ + body)),
    }
}

/// What the answer to a device-start request means.
pub open spec fn device_start_outcome(outcome: HttpOutcomeView) -> Result<
    DeviceCodeInfoView,
    AuthErrorView,
> {
    if accepted(outcome) {
        decoded_device_info(outcome->body)
    } else {
        Err(refusal(outcome, "Device code request failed: "@))
    }
}

/// What the answer to a poll means.
pub open spec fn poll_outcome(outcome: HttpOutcomeView) -> PollReplyView {
    match outcome {
        HttpOutcomeView::Failed(reason) => PollReplyView::Failed(AuthErrorView::Provider(reason)),
        HttpOutcomeView::Reply { status, body } => if is_success(status) {
            match decoded_grant(body) {
                Ok(grant) => PollReplyView::Granted(grant),
                Err(error) => PollReplyView::Failed(error),
            }
        } else {
            poll_refusal(json_text_member(body, "message"@), body)
        },
    }
}

/// What the answer to a refresh request means.
pub open spec fn refresh_outcome(outcome: HttpOutcomeView) -> Result<TokenGrantView, AuthErrorView> {
    if accepted(outcome) {
        decoded_grant(outcome->body)
    } else {
        Err(refusal(outcome, "Token refresh failed: "@))
    }
}

/// What the answer to a validation request means.
pub open spec fn validate_outcome(outcome: HttpOutcomeView) -> Result<Seq<char>, AuthErrorView> {
    match outcome {
        HttpOutcomeView::Failed(reason) => Err(AuthErrorView::Provider(reason)),
        HttpOutcomeView::Reply { status, body } => if is_success(status) {
            login_of(json_text_member(body, "login"@))
        } else {
            Err(AuthErrorView::Provider("Token validation failed"@))
        },
    }
}

/// The failure for an answer that is not a success.
fn refuse(outcome: HttpOutcome, prefix: &str) -> (error: AuthError)
    ensures
        error@ == refusal(outcome@, prefix@),
{
    match outcome {
        HttpOutcome::Failed(reason) => AuthError::Provider(reason),
        HttpOutcome::Reply { status, body } => AuthError::Provider(
            String::from_str(prefix).concat(body.as_str()),
        ),
    }
}

/// Whether the provider answered with a success status.
fn is_accepted(outcome: &HttpOutcome) -> (yes: bool)
    ensures
        yes == accepted(outcome@),
{
    match outcome {
        HttpOutcome::Failed(_) => false,
        HttpOutcome::Reply { status, body } => status_is_success(*status),
    }
}

/// Builds a token pair from the three members of a token response;
/// a decode failure where one is missing.
pub fn grant_from_members(
    access_token: Option<String>,
    refresh_token: Option<String>,
    expires_in: Option<i64>,
) -> (result: Result<TokenGrant, AuthError>)
    ensures
        grant_result_view(result) == grant_of(
            text_view(access_token),
            text_view(refresh_token),
            expires_in,
        ),
{
    match (access_token, refresh_token, expires_in) {
        (Some(access_token), Some(refresh_token), Some(expires_in)) => Ok(
            TokenGrant { access_token, refresh_token, expires_in },
        ),
        _ => Err(AuthError::Decode),
    }
}

/// Decodes the body of a token response.
pub fn decode_grant(body: &str) -> (result: Result<TokenGrant, AuthError>)
    ensures
        grant_result_view(result) == decoded_grant(body@),
{
    let access_token = text_member(body, "access_token");
    let refresh_token = text_member(body, "refresh_token");
    let expires_in = i64_member(body, "expires_in");
    grant_from_members(access_token, refresh_token, expires_in)
}

/// Builds a device code from the five members of a device response;
/// a decode failure where one is missing.
pub fn device_info_from_members(
    device_code: Option<String>,
    user_code: Option<String>,
    verification_uri: Option<String>,
    expires_in: Option<u64>,
    interval: Option<u64>,
) -> (result: Result<DeviceCodeInfo, AuthError>)
    ensures
        device_result_view(result) == device_info_of(
            text_view(device_code),
            text_view(user_code),
            text_view(verification_uri),
            expires_in,
            interval,
        ),
{
    match (device_code, user_code, verification_uri, expires_in, interval) {
        (
            Some(device_code),
            Some(user_code),
            Some(verification_uri),
            Some(expires_in),
            Some(interval),
        ) => Ok(DeviceCodeInfo { device_code, user_code, verification_uri, expires_in, interval }),
        _ => Err(AuthError::Decode),
    }
}

/// Decodes the body of a device response.
pub fn decode_device_info(body: &str) -> (result: Result<DeviceCodeInfo, AuthError>)
    ensures
        device_result_view(result) == decoded_device_info(body@),
{
    let device_code = text_member(body, "device_code");
    let user_code = text_member(body, "user_code");
    let verification_uri = text_member(body, "verification_uri");
    let expires_in = u64_member(body, "expires_in");
    let interval = u64_member(body, "interval");
    device_info_from_members(device_code, user_code, verification_uri, expires_in, interval)
}

/// The identity in a validation response, given its `login` member;
/// a decode failure where it is missing.
pub fn login_from_member(login: Option<String>) -> (result: Result<String, AuthError>)
    ensures
        text_result_view(result) == login_of(text_view(login)),
{
    match login {
        Some(login) => Ok(login),
        None => Err(AuthError::Decode),
    }
}

/// Reads a refused poll, given the `message` member of its body if there
/// is one.
pub fn poll_refusal_from(message: Option<String>, body: &str) -> (reply: PollReply)
    ensures
        reply@ == poll_refusal(text_view(message), body@),
{
    match message {
        Some(message) => {
            if message == String::from_str(AUTHORIZATION_PENDING) {
                PollReply::Pending
            } else {
                PollReply::Failed(
                    AuthError::Provider(
                        String::from_str("Device auth failed: ").concat(message.as_str()),
                    ),
                )
            }
        },
        None => PollReply::Failed(
            AuthError::Provider(String::from_str("Device auth failed: ").concat(body)),
        ),
    }
}

/// Reads the answer to a device-start request: the device code on
/// success, a provider failure carrying the response body otherwise.
pub fn interpret_device_start(outcome: HttpOutcome) -> (result: Result<DeviceCodeInfo, AuthError>)
    ensures
        device_result_view(result) == device_start_outcome(outcome@),
{
    if is_accepted(&outcome) {
        match outcome {
            HttpOutcome::Reply { status, body } => decode_device_info(body.as_str()),
            HttpOutcome::Failed(reason) => Err(AuthError::Provider(reason)),
        }
    } else {
        Err(refuse(outcome, "Device code request failed: "))
    }
}

/// Reads the answer to one poll: the granted token pair, the signal to
/// keep waiting, or the failure that ends the flow.
pub fn interpret_poll(outcome: HttpOutcome) -> (reply: PollReply)
    ensures
        reply@ == poll_outcome(outcome@),
{
    match outcome {
        HttpOutcome::Failed(reason) => PollReply::Failed(AuthError::Provider(reason)),
        HttpOutcome::Reply { status, body } => {
            if status_is_success(status) {
                match decode_grant(body.as_str()) {
                    Ok(grant) => PollReply::Granted(grant),
                    Err(error) => PollReply::Failed(error),
                }
            } else {
                let message = text_member(body.as_str(), "message");
                poll_refusal_from(message, body.as_str())
            }
        },
    }
}

/// Reads the answer to a refresh request: the new token pair on success,
/// a provider failure carrying the response body otherwise.
pub fn interpret_refresh(outcome: HttpOutcome) -> (result: Result<TokenGrant, AuthError>)
    ensures
        grant_result_view(result) == refresh_outcome(outcome@),
{
    if is_accepted(&outcome) {
        match outcome {
            HttpOutcome::Reply { status, body } => decode_grant(body.as_str()),
            HttpOutcome::Failed(reason) => Err(AuthError::Provider(reason)),
        }
    } else {
        Err(refuse(outcome, "Token refresh failed: "))
    }
}

/// Reads the answer to a validation request: the identity bound to the
/// token on success, a provider failure otherwise.
pub fn interpret_validate(outcome: HttpOutcome) -> (result: Result<String, AuthError>)
    ensures
        text_result_view(result) == validate_outcome(outcome@),
{
    match outcome {
        HttpOutcome::Failed(reason) => Err(AuthError::Provider(reason)),
        HttpOutcome::Reply { status, body } => {
            if status_is_success(status) {
                login_from_member(text_member(body.as_str(), "login"))
            } else {
                Err(AuthError::Provider(String::from_str("Token validation failed")))
            }
        },
    }
}

} // verus!
