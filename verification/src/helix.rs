//! The authenticated API proxy: it asks for a valid token, sends the
//! request with it, and on an authorization failure asks once more for a
//! token, forcing a refresh, and tries again.

use vstd::prelude::*;
use crate::error::{AuthError, AuthErrorView};
use crate::http::{
    is_success, pair, status_is_success, HttpMethod, HttpOutcome, HttpOutcomeView,
    HttpRequest, HttpRequestView,
};
use crate::provider::text_result_view;
use crate::text::{has_prefix, starts_with};

verus! {

/// Root of the API's endpoints.
pub const HELIX_ROOT: &'static str = "https://api.twitch.tv/helix";

/// Endpoint that creates an event subscription.
pub const EVENTSUB_URL: &'static str = "https://api.twitch.tv/helix/eventsub/subscriptions";

/// The scheme with which an absolute address starts.
pub const HTTPS_SCHEME: &'static str = "https://";

/// The status with which the API rejects a bearer token.
pub const UNAUTHORIZED: u16 = 401;

/// What to do after an answer from the API.
#[derive(Debug, PartialEq, Eq)]
pub enum HelixVerdict {
    /// The token was rejected: force a refresh and send the request again.
    Retry,
    /// The call is over, with the response body or the failure.
    Done(Result<String, AuthError>),
}

/// Mathematical model of a [`HelixVerdict`].
pub enum HelixVerdictView {
    Retry,
    Done(Result<Seq<char>, AuthErrorView>),
}

impl View for HelixVerdict {
    type V = HelixVerdictView;

    open spec fn view(&self) -> HelixVerdictView {
        match self {
            HelixVerdict::Retry => HelixVerdictView::Retry,
            HelixVerdict::Done(result) => HelixVerdictView::Done(text_result_view(*result)),
        }
    }
}

/// The address of an API call: `path` itself where it is an absolute
/// address, else `path` under the API's root.
pub open spec fn helix_url(path: Seq<char>) -> Seq<char> {
    if starts_with(path, HTTPS_SCHEME@) {
        path
    } else {
        HELIX_ROOT@ + path
    }
}

/// The authenticated GET of `url`.
pub open spec fn helix_request(
    url: Seq<char>,
    client_id: Seq<char>,
    access_token: Seq<char>,
) -> HttpRequestView {
    HttpRequestView {
        method: HttpMethod::Get,
        url,
        headers: seq![("Client-Id"@, client_id), ("Authorization"@, "Bearer "@ + access_token)],
        form: Seq::empty(),
    }
}

/// What an answer means for a call that fails with `prefix` and the
/// response body: the body on success, the failure otherwise.
pub open spec fn body_or_refusal(outcome: HttpOutcomeView, prefix: Seq<char>) -> Result<
    Seq<char>,
    AuthErrorView,
> {
    match outcome {
        HttpOutcomeView::Failed(reason) => Err(AuthErrorView::Provider(reason)),
        HttpOutcomeView::Reply { status, body } => if is_success(status) {
            Ok(body)
        } else {
            Err(AuthErrorView::Provider(prefix + body))
        },
    }
}

/// Whether the API answered that it does not accept the token.
pub open spec fn rejected(outcome: HttpOutcomeView) -> bool {
    outcome matches HttpOutcomeView::Reply { status, body } && status == UNAUTHORIZED
}

/// What to do after an answer to an API call. A rejected token is worth one
/// more attempt, and only one: the answer to the second attempt is final.
pub open spec fn helix_verdict(outcome: HttpOutcomeView, first_attempt: bool) -> HelixVerdictView {
    if first_attempt && rejected(outcome) {
        HelixVerdictView::Retry
    } else {
        HelixVerdictView::Done(body_or_refusal(outcome, "Helix GET failed: "@))
    }
}

/// Resolves the address of an API call.
pub fn resolve_url(path: &str) -> (url: String)
    ensures
        url@ == helix_url(path@),
{
    if has_prefix(path, HTTPS_SCHEME) {
        String::from_str(path)
    } else {
        String::from_str(HELIX_ROOT).concat(path)
    }
}

/// Builds the authenticated GET of `url`.
pub fn build_request(url: &str, client_id: &str, access_token: &str) -> (request: HttpRequest)
    ensures
        request@ == helix_request(url@, client_id@, access_token@),
{
    let mut headers: Vec<(String, String)> = Vec::new();
    headers.push(pair("Client-Id", client_id));
    let credential = String::from_str("Bearer ").concat(access_token);
    headers.push(pair("Authorization", credential.as_str()));
    let request = HttpRequest::get(url, headers);
    assert(request@.headers =~= helix_request(url@, client_id@, access_token@).headers);
    request
}

/// Reads the answer to a call that fails with `prefix` and the response
/// body.
pub fn interpret_body(outcome: HttpOutcome, prefix: &str) -> (result: Result<String, AuthError>)
    ensures
        text_result_view(result) == body_or_refusal(outcome@, prefix@),
{
    match outcome {
        HttpOutcome::Failed(reason) => Err(AuthError::Provider(reason)),
        HttpOutcome::Reply { status, body } => {
            if status_is_success(status) {
                Ok(body)
            } else {
                Err(AuthError::Provider(String::from_str(prefix).concat(body.as_str())))
            }
        },
    }
}

/// Decides what to do after an answer to an API call.
pub fn interpret_get(outcome: HttpOutcome, first_attempt: bool) -> (verdict: HelixVerdict)
    ensures
        verdict@ == helix_verdict(outcome@, first_attempt),
{
    let rejected = match &outcome {
        HttpOutcome::Reply { status, body } => *status == UNAUTHORIZED,
        HttpOutcome::Failed(_) => false,
    };
    if first_attempt && rejected {
        HelixVerdict::Retry
    } else {
        HelixVerdict::Done(interpret_body(outcome, "Helix GET failed: "))
    }
}

/// Reads the answer to the second attempt of an API call, which is final
/// whatever it is.
pub fn interpret_retried_get(outcome: HttpOutcome) -> (result: Result<String, AuthError>)
    ensures
        helix_verdict(outcome@, false) == HelixVerdictView::Done(text_result_view(result)),
{
    interpret_body(outcome, "Helix GET failed: ")
}

/// Reads the answer to the creation of an event subscription.
pub fn interpret_subscribe(outcome: HttpOutcome) -> (result: Result<String, AuthError>)
    ensures
        text_result_view(result) == body_or_refusal(outcome@, "EventSub subscribe failed: "@),
{
    interpret_body(outcome, "EventSub subscribe failed: ")
}

} // verus!
