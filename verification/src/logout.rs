//! Logging out: revoke the stored access token at the provider if there is
//! one, then delete the record. Revocation is best effort; the deletion goes
//! ahead whatever the provider answers, and deleting a record that is not
//! there succeeds.

use vstd::prelude::*;
use crate::error::{AuthError, AuthErrorView};
use crate::http::{HttpOutcome, HttpOutcomeView, HttpRequest, HttpRequestView};
use crate::provider::{revoke_request, Provider, ProviderView};
use crate::record::{TokenData, TokenDataView};
use crate::store::{
    clear_outcome, done_view, interpret_read, interpret_remove, load_outcome, load_view,
    ReadOutcome, ReadOutcomeView, RemoveOutcome, RemoveOutcomeView,
};

verus! {

/// Where a logout stands: what the host has to do next.
#[derive(Debug, PartialEq, Eq)]
pub enum LogoutFlow {
    /// Load the stored record.
    Load,
    /// Ask the provider to revoke the access token.
    Revoke { access_token: String },
    /// Delete the stored record.
    Remove,
    /// The logout is over.
    Finished(Result<(), AuthError>),
}

/// Mathematical model of a [`LogoutFlow`].
pub enum LogoutFlowView {
    Load,
    Revoke { access_token: Seq<char> },
    Remove,
    Finished(Result<(), AuthErrorView>),
}

impl View for LogoutFlow {
    type V = LogoutFlowView;

    open spec fn view(&self) -> LogoutFlowView {
        match self {
            LogoutFlow::Load => LogoutFlowView::Load,
            LogoutFlow::Revoke { access_token } => LogoutFlowView::Revoke {
                access_token: access_token@,
            },
            LogoutFlow::Remove => LogoutFlowView::Remove,
            LogoutFlow::Finished(result) => LogoutFlowView::Finished(done_view(*result)),
        }
    }
}

/// What the host's work came to, decoded.
#[derive(Debug, PartialEq, Eq)]
pub enum LogoutEvent {
    /// The store was read.
    Loaded(Result<Option<TokenData>, AuthError>),
    /// The revocation request was sent; what became of it does not matter.
    Revoked,
    /// The stored record was deleted, or the deletion failed.
    Removed(Result<(), AuthError>),
}

/// Mathematical model of a [`LogoutEvent`].
pub enum LogoutEventView {
    Loaded(Result<Option<TokenDataView>, AuthErrorView>),
    Revoked,
    Removed(Result<(), AuthErrorView>),
}

impl View for LogoutEvent {
    type V = LogoutEventView;

    open spec fn view(&self) -> LogoutEventView {
        match self {
            LogoutEvent::Loaded(result) => LogoutEventView::Loaded(load_view(*result)),
            LogoutEvent::Revoked => LogoutEventView::Revoked,
            LogoutEvent::Removed(result) => LogoutEventView::Removed(done_view(*result)),
        }
    }
}

/// What the host reports back, as it comes.
#[derive(Debug, Clone, PartialEq, Eq)]
pub enum LogoutInput {
    /// The report of reading the store.
    Read(ReadOutcome),
    /// The report of sending a request.
    Http(HttpOutcome),
    /// The report of deleting the stored document.
    Removed(RemoveOutcome),
}

/// Mathematical model of a [`LogoutInput`].
pub enum LogoutInputView {
    Read(ReadOutcomeView),
    Http(HttpOutcomeView),
    Removed(RemoveOutcomeView),
}

impl View for LogoutInput {
    type V = LogoutInputView;

    open spec fn view(&self) -> LogoutInputView {
        match self {
            LogoutInput::Read(outcome) => LogoutInputView::Read(outcome@),
            LogoutInput::Http(outcome) => LogoutInputView::Http(outcome@),
            LogoutInput::Removed(outcome) => LogoutInputView::Removed(outcome@),
        }
    }
}

/// What the host is asked to do.
#[derive(Debug, PartialEq, Eq)]
pub enum LogoutAction {
    /// Read the stored document and report a [`LogoutInput::Read`].
    ReadStore,
    /// Send the request and report a [`LogoutInput::Http`].
    Send(HttpRequest),
    /// Delete the stored document and report a [`LogoutInput::Removed`].
    RemoveStore,
    /// Hand the result to the caller.
    Finish(Result<(), AuthError>),
}

/// Mathematical model of a [`LogoutAction`].
pub enum LogoutActionView {
    ReadStore,
    Send(HttpRequestView),
    RemoveStore,
    Finish(Result<(), AuthErrorView>),
}

impl View for LogoutAction {
    type V = LogoutActionView;

    open spec fn view(&self) -> LogoutActionView {
        match self {
            LogoutAction::ReadStore => LogoutActionView::ReadStore,
            LogoutAction::Send(request) => LogoutActionView::Send(request@),
            LogoutAction::RemoveStore => LogoutActionView::RemoveStore,
            LogoutAction::Finish(result) => LogoutActionView::Finish(done_view(*result)),
        }
    }
}

/// Model of an event, if there is one.
pub open spec fn logout_event_view(event: Option<LogoutEvent>) -> Option<LogoutEventView> {
    match event {
        Some(event) => Some(event@),
        None => None,
    }
}

/// The transition of a logout on `event`.
///
/// Revocation is attempted only where a record was loaded; where none is
/// stored, or the store could not be read, the flow goes straight to the
/// deletion. After the revocation request the deletion follows, whatever
/// the provider answered. The result of the logout is that of the deletion.
/// An event that does not answer the pending step leaves the flow as it is.
pub open spec fn logout_step(state: LogoutFlowView, event: LogoutEventView) -> LogoutFlowView {
    match (state, event) {
        (LogoutFlowView::Load, LogoutEventView::Loaded(Ok(Some(record)))) => {
            LogoutFlowView::Revoke { access_token: record.access_token }
        },
        (LogoutFlowView::Load, LogoutEventView::Loaded(loaded)) => LogoutFlowView::Remove,
        (LogoutFlowView::Revoke { access_token }, LogoutEventView::Revoked) => {
            LogoutFlowView::Remove
        },
        (LogoutFlowView::Remove, LogoutEventView::Removed(result)) => {
            LogoutFlowView::Finished(result)
        },
        (state, event) => state,
    }
}

/// The action that a state asks of the host.
pub open spec fn logout_action(state: LogoutFlowView, provider: ProviderView) -> LogoutActionView {
    match state {
        LogoutFlowView::Load => LogoutActionView::ReadStore,
        LogoutFlowView::Revoke { access_token } => LogoutActionView::Send(
            revoke_request(provider, access_token),
        ),
        LogoutFlowView::Remove => LogoutActionView::RemoveStore,
        LogoutFlowView::Finished(result) => LogoutActionView::Finish(result),
    }
}

/// The event that a report stands for in a state; none where the report
/// does not answer what the state asked for.
pub open spec fn logout_event(state: LogoutFlowView, input: LogoutInputView) -> Option<
    LogoutEventView,
> {
    match (state, input) {
        (LogoutFlowView::Load, LogoutInputView::Read(outcome)) => Some(
            LogoutEventView::Loaded(load_outcome(outcome)),
        ),
        (LogoutFlowView::Revoke { access_token }, LogoutInputView::Http(outcome)) => Some(
            LogoutEventView::Revoked,
        ),
        (LogoutFlowView::Remove, LogoutInputView::Removed(outcome)) => Some(
            LogoutEventView::Removed(clear_outcome(outcome)),
        ),
        (state, input) => None,
    }
}

/// The state after a report and the action it asks for next.
pub open spec fn logout_advance(
    state: LogoutFlowView,
    input: LogoutInputView,
    provider: ProviderView,
) -> (LogoutFlowView, LogoutActionView) {
    let next = match logout_event(state, input) {
        Some(event) => logout_step(state, event),
        None => state,
    };
    (next, logout_action(next, provider))
}

impl LogoutFlow {
    /// A new logout.
    pub fn begin() -> (flow: LogoutFlow)
        ensures
            flow@ == LogoutFlowView::Load,
    {
        LogoutFlow::Load
    }

    /// Whether the logout is over.
    pub fn is_finished(&self) -> (finished: bool)
        ensures
            finished == (self@ is Finished),
    {
        match self {
            LogoutFlow::Finished(_) => true,
            _ => false,
        }
    }

    /// Moves the logout on by one decoded event.
    pub fn step(self, event: LogoutEvent) -> (next: LogoutFlow)
        ensures
            next@ == logout_step(self@, event@),
    {
        match (self, event) {
            (LogoutFlow::Load, LogoutEvent::Loaded(Ok(Some(record)))) => {
                LogoutFlow::Revoke { access_token: record.access_token }
            },
            (LogoutFlow::Load, LogoutEvent::Loaded(loaded)) => LogoutFlow::Remove,
            (LogoutFlow::Revoke { access_token }, LogoutEvent::Revoked) => LogoutFlow::Remove,
            (LogoutFlow::Remove, LogoutEvent::Removed(result)) => LogoutFlow::Finished(result),
            (state, event) => state,
        }
    }

    /// The action this state asks of the host.
    pub fn action(&self, provider: &Provider) -> (action: LogoutAction)
        ensures
            action@ == logout_action(self@, provider@),
    {
        match self {
            LogoutFlow::Load => LogoutAction::ReadStore,
            LogoutFlow::Revoke { access_token } => LogoutAction::Send(
                provider.revoke_request(access_token.as_str()),
            ),
            LogoutFlow::Remove => LogoutAction::RemoveStore,
            LogoutFlow::Finished(Ok(done)) => LogoutAction::Finish(Ok(())),
            LogoutFlow::Finished(Err(error)) => LogoutAction::Finish(Err(error.clone())),
        }
    }

    /// Decodes a report into the event it stands for in this state; `None`
    /// where it does not answer what this state asked for.
    pub fn decode(&self, input: LogoutInput) -> (event: Option<LogoutEvent>)
        ensures
            logout_event_view(event) == logout_event(self@, input@),
    {
        match (self, input) {
            (LogoutFlow::Load, LogoutInput::Read(outcome)) => Some(
                LogoutEvent::Loaded(interpret_read(outcome)),
            ),
            (LogoutFlow::Revoke { access_token }, LogoutInput::Http(outcome)) => Some(
                LogoutEvent::Revoked,
            ),
            (LogoutFlow::Remove, LogoutInput::Removed(outcome)) => Some(
                LogoutEvent::Removed(interpret_remove(outcome)),
            ),
            (state, input) => None,
        }
    }

    /// Takes the host's report and returns the state the logout is in then
    /// with the action it asks for.
    pub fn advance(self, input: LogoutInput, provider: &Provider) -> (moved: (
        LogoutFlow,
        LogoutAction,
    ))
        ensures
            (moved.0@, moved.1@) == logout_advance(self@, input@, provider@),
    {
        let next = match self.decode(input) {
            Some(event) => self.step(event),
            None => self,
        };
        let action = next.action(provider);
        (next, action)
    }
}

/// Logging out where no record is stored sends nothing to the provider: the
/// deletion is asked for at once, and whether it finds a document or not the
/// logout succeeds.
pub proof fn lemma_logout_without_record(found: bool, provider: ProviderView)
    ensures
        ({
            let removal = if found {
                RemoveOutcomeView::Removed
            } else {
                RemoveOutcomeView::Missing
            };
            let loaded = logout_advance(
                LogoutFlowView::Load,
                LogoutInputView::Read(ReadOutcomeView::Missing),
                provider,
            );
            let removed = logout_advance(loaded.0, LogoutInputView::Removed(removal), provider);
            &&& loaded == (LogoutFlowView::Remove, LogoutActionView::RemoveStore)
            &&& removed == (LogoutFlowView::Finished(Ok(())), LogoutActionView::Finish(Ok(())))
        }),
{
}

/// Logging out where a record is stored asks for its access token to be
/// revoked, and then deletes the record whatever the provider answered; the
/// result of the logout is that of the deletion.
pub proof fn lemma_logout_with_record(
    record: TokenDataView,
    removed: Result<(), AuthErrorView>,
    provider: ProviderView,
)
    ensures
        ({
            let revoking = logout_step(
                LogoutFlowView::Load,
                LogoutEventView::Loaded(Ok(Some(record))),
            );
            let removing = logout_step(revoking, LogoutEventView::Revoked);
            let finished = logout_step(removing, LogoutEventView::Removed(removed));
            &&& logout_action(revoking, provider) == LogoutActionView::Send(
                revoke_request(provider, record.access_token),
            )
            &&& removing == LogoutFlowView::Remove
            &&& finished == LogoutFlowView::Finished(removed)
        }),
{
}

} // verus!
