//! The command surface: the shapes in which results are handed to the host
//! application.

use vstd::prelude::*;
use crate::device::{
    lemma_expired_flow_stops, lemma_pending_then_granted, pending_rounds, poll_end, poll_run,
    polls_sent, saves_asked, DevicePoll, DevicePollView, PollEventView, PollPhase, PollPhaseView,
};
use crate::error::{AuthError, AuthErrorView};
use crate::json::text_view;
use crate::provider::{device_result_view, DeviceCodeInfo, DeviceCodeInfoView, PollReplyView};
use crate::record::{issuable, TokenData, TokenDataView, TokenGrantView};
use crate::session::token_result_view;

verus! {

/// Whether a session is authenticated, and as whom.
#[derive(Debug, Clone, PartialEq, Eq)]
pub struct AuthStatusResponse {
    pub authenticated: bool,
    pub username: Option<String>,
}

/// Mathematical model of an [`AuthStatusResponse`].
pub struct AuthStatusResponseView {
    pub authenticated: bool,
    pub username: Option<Seq<char>>,
}

impl View for AuthStatusResponse {
    type V = AuthStatusResponseView;

    open spec fn view(&self) -> AuthStatusResponseView {
        AuthStatusResponseView {
            authenticated: self.authenticated,
            username: text_view(self.username),
        }
    }
}

/// A bearer credential for a dependent subsystem, with the identity it
/// belongs to.
#[derive(Debug, Clone, PartialEq, Eq)]
pub struct IrcTokenResponse {
    pub token: String,
    pub username: String,
}

/// Mathematical model of an [`IrcTokenResponse`].
pub struct IrcTokenResponseView {
    pub token: Seq<char>,
    pub username: Seq<char>,
}

impl View for IrcTokenResponse {
    type V = IrcTokenResponseView;

    open spec fn view(&self) -> IrcTokenResponseView {
        IrcTokenResponseView { token: self.token@, username: self.username@ }
    }
}

/// Model of a status, or the failure to get one.
pub open spec fn status_result_view(result: Result<AuthStatusResponse, AuthError>) -> Result<
    AuthStatusResponseView,
    AuthErrorView,
> {
    match result {
        Ok(status) => Ok(status@),
        Err(error) => Err(error@),
    }
}

/// Model of a credential, or the failure to get one.
pub open spec fn irc_result_view(result: Result<IrcTokenResponse, AuthError>) -> Result<
    IrcTokenResponseView,
    AuthErrorView,
> {
    match result {
        Ok(token) => Ok(token@),
        Err(error) => Err(error@),
    }
}

/// The status of a session logged in as `username`.
pub open spec fn logged_in(username: Seq<char>) -> AuthStatusResponseView {
    AuthStatusResponseView { authenticated: true, username: Some(username) }
}

/// The status of a logged-out session.
pub open spec fn logged_out() -> AuthStatusResponseView {
    AuthStatusResponseView { authenticated: false, username: None }
}

/// What a status check reports for the outcome of a token request: logged
/// in as the record's identity, or logged out, whatever the failure was.
pub open spec fn status_of(result: Result<TokenDataView, AuthErrorView>) -> AuthStatusResponseView {
    match result {
        Ok(record) => logged_in(record.username),
        Err(error) => logged_out(),
    }
}

/// What a completed device authorization reports: logged in as the record's
/// identity, or the failure.
pub open spec fn login_of_flow(result: Result<TokenDataView, AuthErrorView>) -> Result<
    AuthStatusResponseView,
    AuthErrorView,
> {
    match result {
        Ok(record) => Ok(logged_in(record.username)),
        Err(error) => Err(error),
    }
}

/// The credential handed to a dependent subsystem for the outcome of a
/// token request.
pub open spec fn irc_token_of(result: Result<TokenDataView, AuthErrorView>) -> Result<
    IrcTokenResponseView,
    AuthErrorView,
> {
    match result {
        Ok(record) => Ok(
            IrcTokenResponseView { token: record.access_token, username: record.username },
        ),
        Err(error) => Err(error),
    }
}

/// The state of the session as the command surface shows it.
#[derive(Debug, Clone, PartialEq, Eq)]
pub enum SessionState {
    /// No record is stored and no device authorization is under way.
    LoggedOut,
    /// The provider issued a device code; the user has `deadline` seconds
    /// from the start of the flow to enter `user_code` at `verification_uri`.
    DeviceFlowStarted { user_code: String, verification_uri: String, deadline: u64 },
    /// The device authorization is waiting for the user, or completing.
    Polling,
    /// A validated record is stored for `username`.
    LoggedIn { username: String },
}

/// Mathematical model of a [`SessionState`].
pub enum SessionStateView {
    LoggedOut,
    DeviceFlowStarted { user_code: Seq<char>, verification_uri: Seq<char>, deadline: u64 },
    Polling,
    LoggedIn { username: Seq<char> },
}

impl View for SessionState {
    type V = SessionStateView;

    open spec fn view(&self) -> SessionStateView {
        match self {
            SessionState::LoggedOut => SessionStateView::LoggedOut,
            SessionState::DeviceFlowStarted { user_code, verification_uri, deadline } => {
                SessionStateView::DeviceFlowStarted {
                    user_code: user_code@,
                    verification_uri: verification_uri@,
                    deadline: *deadline,
                }
            },
            SessionState::Polling => SessionStateView::Polling,
            SessionState::LoggedIn { username } => SessionStateView::LoggedIn {
                username: username@,
            },
        }
    }
}

/// The session after an attempt to start a device authorization: started
/// with the issued code, or still logged out where the provider failed.
pub open spec fn state_after_start(result: Result<DeviceCodeInfoView, AuthErrorView>) -> SessionStateView {
    match result {
        Ok(info) => SessionStateView::DeviceFlowStarted {
            user_code: info.user_code,
            verification_uri: info.verification_uri,
            deadline: info.expires_in,
        },
        Err(error) => SessionStateView::LoggedOut,
    }
}

/// The session while a device authorization runs and after it: polling
/// until the flow is over, then logged in as the identity of the stored
/// record, or logged out where the flow failed or expired.
pub open spec fn state_of_flow(flow: DevicePollView) -> SessionStateView {
    match flow.phase {
        PollPhaseView::Finished(Ok(record)) => SessionStateView::LoggedIn {
            username: record.username,
        },
        PollPhaseView::Finished(Err(error)) => SessionStateView::LoggedOut,
        _ => SessionStateView::Polling,
    }
}

impl SessionState {
    /// The session after an attempt to start a device authorization.
    pub fn after_device_start(result: &Result<DeviceCodeInfo, AuthError>) -> (state: SessionState)
        ensures
            state@ == state_after_start(device_result_view(*result)),
    {
        match result {
            Ok(info) => SessionState::DeviceFlowStarted {
                user_code: info.user_code.clone(),
                verification_uri: info.verification_uri.clone(),
                deadline: info.expires_in,
            },
            Err(error) => SessionState::LoggedOut,
        }
    }

    /// The session while a device authorization runs and after it.
    pub fn of_device_flow(flow: &DevicePoll) -> (state: SessionState)
        ensures
            state@ == state_of_flow(flow@),
    {
        match &flow.phase {
            PollPhase::Finished(Ok(record)) => SessionState::LoggedIn {
                username: record.username.clone(),
            },
            PollPhase::Finished(Err(error)) => SessionState::LoggedOut,
            _ => SessionState::Polling,
        }
    }
}

impl AuthStatusResponse {
    /// The answer of a status check. A failed token request is reported as
    /// "not authenticated"; the failure itself is dropped.
    pub fn from_token_request(result: Result<TokenData, AuthError>) -> (status: AuthStatusResponse)
        ensures
            status@ == status_of(token_result_view(result)),
    {
        match result {
            Ok(record) => AuthStatusResponse {
                authenticated: true,
                username: Some(record.username),
            },
            Err(error) => AuthStatusResponse { authenticated: false, username: None },
        }
    }

    /// The answer of a completed device authorization: logged in as the
    /// record's identity, or the failure that ended the flow.
    pub fn from_device_flow(result: Result<TokenData, AuthError>) -> (status: Result<
        AuthStatusResponse,
        AuthError,
    >)
        ensures
            status_result_view(status) == login_of_flow(token_result_view(result)),
    {
        match result {
            Ok(record) => Ok(
                AuthStatusResponse { authenticated: true, username: Some(record.username) },
            ),
            Err(error) => Err(error),
        }
    }
}

impl IrcTokenResponse {
    /// The credential for a dependent subsystem: the access token of a
    /// valid record with its identity, or the failure of the token request.
    pub fn from_token_request(result: Result<TokenData, AuthError>) -> (token: Result<
        IrcTokenResponse,
        AuthError,
    >)
        ensures
            irc_result_view(token) == irc_token_of(token_result_view(result)),
    {
        match result {
            Ok(record) => Ok(
                IrcTokenResponse { token: record.access_token, username: record.username },
            ),
            Err(error) => Err(error),
        }
    }
}

/// A device authorization whose provider answers "pending" to the first
/// `waits.len()` polls and grants the next one shows as logged in as the
/// validated identity, after exactly one poll more than it was told to wait.
pub proof fn lemma_granted_flow_logs_in(
    start: DevicePollView,
    waits: Seq<u64>,
    last_wait: u64,
    grant: TokenGrantView,
    username: Seq<char>,
    now: int,
)
    requires
        start.phase is Sleep,
        forall|i: int| 0 <= i < waits.len() ==> waits[i] < start.expires_in,
        last_wait < start.expires_in,
        issuable(grant, now),
    ensures
        ({
            let events = pending_rounds(waits) + seq![
                PollEventView::Woke { elapsed: last_wait },
                PollEventView::Polled(PollReplyView::Granted(grant)),
                PollEventView::Validated(Ok(username)),
                PollEventView::Saved(Ok(())),
            ];
            &&& polls_sent(poll_run(start, events, now)) == waits.len() + 1
            &&& state_of_flow(poll_end(start, events, now)) == (SessionStateView::LoggedIn {
                username,
            })
        }),
{
    lemma_pending_then_granted(start, waits, last_wait, grant, username, now);
}

/// A device authorization that wakes up to find its deadline passed shows
/// as logged out; no poll follows the ones made before, and nothing is
/// saved.
pub proof fn lemma_expired_flow_logs_out(
    start: DevicePollView,
    waits: Seq<u64>,
    late: u64,
    afterwards: Seq<PollEventView>,
    now: int,
)
    requires
        start.phase is Sleep,
        forall|i: int| 0 <= i < waits.len() ==> waits[i] < start.expires_in,
        late >= start.expires_in,
    ensures
        ({
            let events = pending_rounds(waits) + (seq![PollEventView::Woke { elapsed: late }]
                + afterwards);
            &&& polls_sent(poll_run(start, events, now)) == waits.len()
            &&& saves_asked(poll_run(start, events, now)) == 0
            &&& state_of_flow(poll_end(start, events, now)) == SessionStateView::LoggedOut
        }),
{
    lemma_expired_flow_stops(start, waits, late, afterwards, now);
}

} // verus!
