//! Getting a currently valid token: load the record, refresh it when it is
//! near expiry, validate and persist the new one, and hand it out.
//!
//! The flow is a state machine. Each state names the one thing the host has
//! to do next; the host does it and reports the outcome, and the flow moves
//! on. The host holds the refresh guard from the first step to the last.

use vstd::prelude::*;
use crate::clock::unix_now;
use crate::error::{AuthError, AuthErrorView};
use crate::http::{HttpOutcome, HttpOutcomeView, HttpRequest, HttpRequestView};
use crate::provider::{
    grant_result_view, interpret_refresh, interpret_validate, refresh_outcome, refresh_request,
    text_result_view, validate_outcome, validate_request, Provider, ProviderView,
};
use crate::record::{
    encoded_record, issuable, issued, loads_back, needs_refresh, TokenData, TokenDataView, TokenGrant,
    TokenGrantView,
};
use crate::store::{
    done_view, interpret_read, interpret_write, load_outcome, load_view, save_outcome,
    ReadOutcome, ReadOutcomeView, WriteOutcome, WriteOutcomeView,
};

verus! {

/// Where a token request stands: what the host has to do next.
#[derive(Debug, PartialEq, Eq)]
pub enum TokenFlow {
    /// Load the stored record. With `force`, the record is refreshed even
    /// when it is not near expiry.
    Load { force: bool },
    /// Exchange the refresh token for a new token pair.
    Refresh { refresh_token: String },
    /// Resolve the identity bound to the new access token.
    Validate { grant: TokenGrant },
    /// Persist the new record.
    Save { fresh: TokenData },
    /// The request is over.
    Finished(Result<TokenData, AuthError>),
}

/// Mathematical model of a [`TokenFlow`].
pub enum TokenFlowView {
    Load { force: bool },
    Refresh { refresh_token: Seq<char> },
    Validate { grant: TokenGrantView },
    Save { fresh: TokenDataView },
    Finished(Result<TokenDataView, AuthErrorView>),
}

/// Model of a record, or the failure to get one.
pub open spec fn token_result_view(result: Result<TokenData, AuthError>) -> Result<
    TokenDataView,
    AuthErrorView,
> {
    match result {
        Ok(record) => Ok(record@),
        Err(error) => Err(error@),
    }
}

impl View for TokenFlow {
    type V = TokenFlowView;

    open spec fn view(&self) -> TokenFlowView {
        match self {
            TokenFlow::Load { force } => TokenFlowView::Load { force: *force },
            TokenFlow::Refresh { refresh_token } => TokenFlowView::Refresh {
                refresh_token: refresh_token@,
            },
            TokenFlow::Validate { grant } => TokenFlowView::Validate { grant: grant@ },
            TokenFlow::Save { fresh } => TokenFlowView::Save { fresh: fresh@ },
            TokenFlow::Finished(result) => TokenFlowView::Finished(token_result_view(*result)),
        }
    }
}

/// What the host's work came to, decoded.
#[derive(Debug, PartialEq, Eq)]
pub enum TokenEvent {
    /// The store was read.
    Loaded(Result<Option<TokenData>, AuthError>),
    /// The provider answered the refresh request.
    Refreshed(Result<TokenGrant, AuthError>),
    /// The provider answered the validation request.
    Validated(Result<String, AuthError>),
    /// The store was written.
    Saved(Result<(), AuthError>),
}

/// Mathematical model of a [`TokenEvent`].
pub enum TokenEventView {
    Loaded(Result<Option<TokenDataView>, AuthErrorView>),
    Refreshed(Result<TokenGrantView, AuthErrorView>),
    Validated(Result<Seq<char>, AuthErrorView>),
    Saved(Result<(), AuthErrorView>),
}

impl View for TokenEvent {
    type V = TokenEventView;

    open spec fn view(&self) -> TokenEventView {
        match self {
            TokenEvent::Loaded(result) => TokenEventView::Loaded(load_view(*result)),
            TokenEvent::Refreshed(result) => TokenEventView::Refreshed(grant_result_view(*result)),
            TokenEvent::Validated(result) => TokenEventView::Validated(text_result_view(*result)),
            TokenEvent::Saved(result) => TokenEventView::Saved(done_view(*result)),
        }
    }
}

/// The transition of a token request on `event`, the clock reading `now`.
///
/// A stored record that is not near expiry ends the request at once. One
/// that is, or any record under `force`, is refreshed, validated, stamped
/// with `now` plus its lifetime and saved before it is handed out. Any
/// failure ends the request with that failure and changes nothing else. An
/// event that does not answer the pending step leaves the flow as it is.
pub open spec fn token_step(state: TokenFlowView, event: TokenEventView, now: int) -> TokenFlowView {
    match (state, event) {
        (TokenFlowView::Load { force }, TokenEventView::Loaded(Err(error))) => {
            TokenFlowView::Finished(Err(error))
        },
        (TokenFlowView::Load { force }, TokenEventView::Loaded(Ok(None))) => {
            TokenFlowView::Finished(Err(AuthErrorView::NotAuthenticated))
        },
        (TokenFlowView::Load { force }, TokenEventView::Loaded(Ok(Some(record)))) => {
            if force || needs_refresh(record.expires_at, now) {
                TokenFlowView::Refresh { refresh_token: record.refresh_token }
            } else {
                TokenFlowView::Finished(Ok(record))
            }
        },
        (TokenFlowView::Refresh { refresh_token }, TokenEventView::Refreshed(Err(error))) => {
            TokenFlowView::Finished(Err(error))
        },
        (TokenFlowView::Refresh { refresh_token }, TokenEventView::Refreshed(Ok(grant))) => {
            TokenFlowView::Validate { grant }
        },
        (TokenFlowView::Validate { grant }, TokenEventView::Validated(Err(error))) => {
            TokenFlowView::Finished(Err(error))
        },
        (TokenFlowView::Validate { grant }, TokenEventView::Validated(Ok(username))) => {
            if issuable(grant, now) {
                TokenFlowView::Save { fresh: issued(grant, username, now) }
            } else {
                TokenFlowView::Finished(Err(AuthErrorView::Decode))
            }
        },
        (TokenFlowView::Save { fresh }, TokenEventView::Saved(Err(error))) => {
            TokenFlowView::Finished(Err(error))
        },
        (TokenFlowView::Save { fresh }, TokenEventView::Saved(Ok(done))) => {
            TokenFlowView::Finished(Ok(fresh))
        },
        (state, event) => state,
    }
}

/// What the host reports back, as it comes.
#[derive(Debug, Clone, PartialEq, Eq)]
pub enum TokenInput {
    /// The report of reading the store.
    Read(ReadOutcome),
    /// The report of sending a request.
    Http(HttpOutcome),
    /// The report of writing the store.
    Written(WriteOutcome),
}

/// Mathematical model of a [`TokenInput`].
pub enum TokenInputView {
    Read(ReadOutcomeView),
    Http(HttpOutcomeView),
    Written(WriteOutcomeView),
}

impl View for TokenInput {
    type V = TokenInputView;

    open spec fn view(&self) -> TokenInputView {
        match self {
            TokenInput::Read(outcome) => TokenInputView::Read(outcome@),
            TokenInput::Http(outcome) => TokenInputView::Http(outcome@),
            TokenInput::Written(outcome) => TokenInputView::Written(outcome@),
        }
    }
}

/// What the host is asked to do.
#[derive(Debug, PartialEq, Eq)]
pub enum TokenAction {
    /// Read the stored document and report a [`TokenInput::Read`].
    ReadStore,
    /// Send the request and report a [`TokenInput::Http`].
    Send(HttpRequest),
    /// Replace the stored document with this text and report a
    /// [`TokenInput::Written`].
    WriteStore(String),
    /// Release the guard and hand the result to the caller.
    Finish(Result<TokenData, AuthError>),
}

/// Mathematical model of a [`TokenAction`].
pub enum TokenActionView {
    ReadStore,
    Send(HttpRequestView),
    WriteStore(Seq<char>),
    Finish(Result<TokenDataView, AuthErrorView>),
}

impl View for TokenAction {
    type V = TokenActionView;

    open spec fn view(&self) -> TokenActionView {
        match self {
            TokenAction::ReadStore => TokenActionView::ReadStore,
            TokenAction::Send(request) => TokenActionView::Send(request@),
            TokenAction::WriteStore(document) => TokenActionView::WriteStore(document@),
            TokenAction::Finish(result) => TokenActionView::Finish(token_result_view(*result)),
        }
    }
}

/// Model of an event, if there is one.
pub open spec fn token_event_view(event: Option<TokenEvent>) -> Option<TokenEventView> {
    match event {
        Some(event) => Some(event@),
        None => None,
    }
}

/// The action that a state asks of the host. A record is written only as a
/// document that decodes to it again; a record that has none ends the
/// request with a decode failure in place of the write.
pub open spec fn token_action(state: TokenFlowView, provider: ProviderView) -> TokenActionView {
    match state {
        TokenFlowView::Load { force } => TokenActionView::ReadStore,
        TokenFlowView::Refresh { refresh_token } => TokenActionView::Send(
            refresh_request(provider, refresh_token),
        ),
        TokenFlowView::Validate { grant } => TokenActionView::Send(
            validate_request(grant.access_token),
        ),
        TokenFlowView::Save { fresh } => if loads_back(fresh) {
            TokenActionView::WriteStore(encoded_record(fresh))
        } else {
            TokenActionView::Finish(Err(AuthErrorView::Decode))
        },
        TokenFlowView::Finished(result) => TokenActionView::Finish(result),
    }
}

/// The event that a report stands for in a state; none where the report
/// does not answer what the state asked for.
pub open spec fn token_event(state: TokenFlowView, input: TokenInputView) -> Option<TokenEventView> {
    match (state, input) {
        (TokenFlowView::Load { force }, TokenInputView::Read(outcome)) => Some(
            TokenEventView::Loaded(load_outcome(outcome)),
        ),
        (TokenFlowView::Refresh { refresh_token }, TokenInputView::Http(outcome)) => Some(
            TokenEventView::Refreshed(refresh_outcome(outcome)),
        ),
        (TokenFlowView::Validate { grant }, TokenInputView::Http(outcome)) => Some(
            TokenEventView::Validated(validate_outcome(outcome)),
        ),
        (TokenFlowView::Save { fresh }, TokenInputView::Written(outcome)) => Some(
            TokenEventView::Saved(save_outcome(outcome)),
        ),
        (state, input) => None,
    }
}

/// The state after a report and the action it asks for next.
pub open spec fn token_advance(
    state: TokenFlowView,
    input: TokenInputView,
    now: int,
    provider: ProviderView,
) -> (TokenFlowView, TokenActionView) {
    let next = match token_event(state, input) {
        Some(event) => token_step(state, event, now),
        None => state,
    };
    (next, token_action(next, provider))
}

impl TokenFlow {
    /// A new request. With `force`, the stored record is refreshed whatever
    /// its expiry.
    pub fn begin(force: bool) -> (flow: TokenFlow)
        ensures
            flow@ == (TokenFlowView::Load { force }),
    {
        TokenFlow::Load { force }
    }

    /// Whether the request is over.
    pub fn is_finished(&self) -> (finished: bool)
        ensures
            finished == (self@ is Finished),
    {
        match self {
            TokenFlow::Finished(_) => true,
            _ => false,
        }
    }

    /// Moves the request on by one decoded event, the clock reading `now`.
    pub fn step(self, event: TokenEvent, now: i64) -> (next: TokenFlow)
        ensures
            next@ == token_step(self@, event@, now as int),
    {
        match (self, event) {
            (TokenFlow::Load { force }, TokenEvent::Loaded(Err(error))) => {
                TokenFlow::Finished(Err(error))
            },
            (TokenFlow::Load { force }, TokenEvent::Loaded(Ok(None))) => {
                TokenFlow::Finished(Err(AuthError::NotAuthenticated))
            },
            (TokenFlow::Load { force }, TokenEvent::Loaded(Ok(Some(record)))) => {
                if force || record.is_stale(now) {
                    TokenFlow::Refresh { refresh_token: record.refresh_token }
                } else {
                    TokenFlow::Finished(Ok(record))
                }
            },
            (TokenFlow::Refresh { refresh_token }, TokenEvent::Refreshed(Err(error))) => {
                TokenFlow::Finished(Err(error))
            },
            (TokenFlow::Refresh { refresh_token }, TokenEvent::Refreshed(Ok(grant))) => {
                TokenFlow::Validate { grant }
            },
            (TokenFlow::Validate { grant }, TokenEvent::Validated(Err(error))) => {
                TokenFlow::Finished(Err(error))
            },
            (TokenFlow::Validate { grant }, TokenEvent::Validated(Ok(username))) => {
                match TokenData::issue(grant, username, now) {
                    Some(fresh) => TokenFlow::Save { fresh },
                    None => TokenFlow::Finished(Err(AuthError::Decode)),
                }
            },
            (TokenFlow::Save { fresh }, TokenEvent::Saved(Err(error))) => {
                TokenFlow::Finished(Err(error))
            },
            (TokenFlow::Save { fresh }, TokenEvent::Saved(Ok(done))) => {
                TokenFlow::Finished(Ok(fresh))
            },
            (state, event) => state,
        }
    }
    /// The action this state asks of the host.
    pub fn action(&self, provider: &Provider) -> (action: TokenAction)
        ensures
            action@ == token_action(self@, provider@),
    {
        match self {
            TokenFlow::Load { force } => TokenAction::ReadStore,
            TokenFlow::Refresh { refresh_token } => TokenAction::Send(
                provider.refresh_request(refresh_token.as_str()),
            ),
            TokenFlow::Validate { grant } => TokenAction::Send(
                Provider::validate_request(grant.access_token.as_str()),
            ),
            TokenFlow::Save { fresh } => match fresh.to_checked_json() {
                Some(document) => TokenAction::WriteStore(document),
                None => TokenAction::Finish(Err(AuthError::Decode)),
            },
            TokenFlow::Finished(Ok(record)) => TokenAction::Finish(Ok(record.clone())),
            TokenFlow::Finished(Err(error)) => TokenAction::Finish(Err(error.clone())),
        }
    }

    /// Decodes a report into the event it stands for in this state; `None`
    /// where it does not answer what this state asked for.
    pub fn decode(&self, input: TokenInput) -> (event: Option<TokenEvent>)
        ensures
            token_event_view(event) == token_event(self@, input@),
    {
        match (self, input) {
            (TokenFlow::Load { force }, TokenInput::Read(outcome)) => Some(
                TokenEvent::Loaded(interpret_read(outcome)),
            ),
            (TokenFlow::Refresh { refresh_token }, TokenInput::Http(outcome)) => Some(
                TokenEvent::Refreshed(interpret_refresh(outcome)),
            ),
            (TokenFlow::Validate { grant }, TokenInput::Http(outcome)) => Some(
                TokenEvent::Validated(interpret_validate(outcome)),
            ),
            (TokenFlow::Save { fresh }, TokenInput::Written(outcome)) => Some(
                TokenEvent::Saved(interpret_write(outcome)),
            ),
            (state, input) => None,
        }
    }

    /// Takes the host's report, the clock reading `now`, and returns the
    /// state the request is in then with the action it asks for.
    pub fn advance_at(self, input: TokenInput, now: i64, provider: &Provider) -> (moved: (
        TokenFlow,
        TokenAction,
    ))
        ensures
            (moved.0@, moved.1@) == token_advance(self@, input@, now as int, provider@),
    {
        let next = match self.decode(input) {
            Some(event) => self.step(event, now),
            None => self,
        };
        let action = next.action(provider);
        (next, action)
    }

    /// Takes the host's report and returns the state the request is in then
    /// with the action it asks for. Reads the clock; the outcome is that of
    /// [`TokenFlow::advance_at`] for the time read.
    pub fn advance(self, input: TokenInput, provider: &Provider) -> (moved: (TokenFlow, TokenAction))
        ensures
            exists|now: i64|
                (moved.0@, moved.1@) == #[trigger] token_advance(
                    self@,
                    input@,
                    now as int,
                    provider@,
                ),
    {
        let now = unix_now();
        self.advance_at(input, now, provider)
    }
}

// ---------------------------------------------------------------------------
// Runs of a request
// ---------------------------------------------------------------------------

/// The states a request passes through when `events` are fed to it in
/// order, each with the clock reading at which it arrives. The host performs
/// the action of each state in turn, so the states of a run are the work it
/// does.
pub open spec fn token_run(state: TokenFlowView, events: Seq<(TokenEventView, int)>) -> Seq<
    TokenFlowView,
>
    decreases events.len(),
{
    if events.len() == 0 {
        Seq::empty()
    } else {
        let next = token_step(state, events[0].0, events[0].1);
        seq![next] + token_run(next, events.drop_first())
    }
}

/// The state a request is in after `events`.
pub open spec fn token_end(state: TokenFlowView, events: Seq<(TokenEventView, int)>) -> TokenFlowView
    decreases events.len(),
{
    if events.len() == 0 {
        state
    } else {
        token_end(token_step(state, events[0].0, events[0].1), events.drop_first())
    }
}

/// The number of refresh requests that a run asks the host to send.
pub open spec fn refreshes_sent(run: Seq<TokenFlowView>) -> nat
    decreases run.len(),
{
    if run.len() == 0 {
        0
    } else {
        let rest = refreshes_sent(run.drop_first());
        if run[0] is Refresh {
            rest + 1
        } else {
            rest
        }
    }
}

/// The number of requests of any kind that a run asks the host to send to
/// the provider.
pub open spec fn requests_sent(run: Seq<TokenFlowView>) -> nat
    decreases run.len(),
{
    if run.len() == 0 {
        0
    } else {
        let rest = requests_sent(run.drop_first());
        if run[0] is Refresh || run[0] is Validate {
            rest + 1
        } else {
            rest
        }
    }
}

/// The number of save steps in a run. Each asks the host for one write (see
/// [`token_action`]), and the host reports a save only in answer to it.
pub open spec fn records_saved(run: Seq<TokenFlowView>) -> nat
    decreases run.len(),
{
    if run.len() == 0 {
        0
    } else {
        let rest = records_saved(run.drop_first());
        if run[0] is Save {
            rest + 1
        } else {
            rest
        }
    }
}

/// What the store holds after the host has done the work of `run` on a
/// store that held `store`: the record of the last save, if there was one.
/// That a load finds the record that was saved is
/// [`lemma_saved_record_loads_back`].
pub open spec fn stored_after(store: Option<TokenDataView>, run: Seq<TokenFlowView>) -> Option<
    TokenDataView,
>
    decreases run.len(),
{
    if run.len() == 0 {
        store
    } else {
        let held = match run[0] {
            TokenFlowView::Save { fresh } => Some(fresh),
            _ => store,
        };
        stored_after(held, run.drop_first())
    }
}

/// A finished request takes no further step: whatever is reported to it, it
/// stays as it is.
pub proof fn lemma_finished_request_stays(state: TokenFlowView, event: TokenEventView, now: int)
    requires
        state is Finished,
    ensures
        token_step(state, event, now) == state,
{
}

/// Whatever events reach a finished request, nothing is sent, nothing is
/// saved and the request ends as it was.
pub proof fn lemma_finished_request_does_nothing(
    state: TokenFlowView,
    events: Seq<(TokenEventView, int)>,
    store: Option<TokenDataView>,
)
    requires
        state is Finished,
    ensures
        requests_sent(token_run(state, events)) == 0,
        refreshes_sent(token_run(state, events)) == 0,
        records_saved(token_run(state, events)) == 0,
        stored_after(store, token_run(state, events)) == store,
        token_end(state, events) == state,
    decreases events.len(),
{
    if events.len() > 0 {
        let rest = events.drop_first();
        lemma_finished_request_stays(state, events[0].0, events[0].1);
        lemma_finished_request_does_nothing(state, rest, store);
        let run = token_run(state, events);
        assert(run[0] == state);
        assert(run.drop_first() =~= token_run(state, rest));
    }
}

/// A stored record that is still further from its expiry than the lookahead
/// window is handed out as it is, without a request to the provider and
/// without a write to the store, whatever is reported afterwards.
pub proof fn lemma_fresh_record_is_handed_out(
    record: TokenDataView,
    now: int,
    afterwards: Seq<(TokenEventView, int)>,
    provider: ProviderView,
)
    requires
        !needs_refresh(record.expires_at, now),
    ensures
        ({
            let start = TokenFlowView::Load { force: false };
            let loaded = TokenEventView::Loaded(Ok(Some(record)));
            let events = seq![(loaded, now)] + afterwards;
            &&& token_step(start, loaded, now) == TokenFlowView::Finished(Ok(record))
            &&& token_action(token_step(start, loaded, now), provider) == TokenActionView::Finish(
                Ok(record),
            )
            &&& requests_sent(token_run(start, events)) == 0
            &&& records_saved(token_run(start, events)) == 0
            &&& token_end(start, events) == TokenFlowView::Finished(Ok(record))
        }),
{
    let start = TokenFlowView::Load { force: false };
    let loaded = TokenEventView::Loaded(Ok(Some(record)));
    let events = seq![(loaded, now)] + afterwards;
    let finished = token_step(start, loaded, now);
    assert(events[0] == (loaded, now));
    assert(events.drop_first() =~= afterwards);
    lemma_finished_request_does_nothing(finished, afterwards, None);
    let run = token_run(start, events);
    assert(run[0] == finished);
    assert(run.drop_first() =~= token_run(finished, afterwards));
}

/// A stored record within the lookahead window of its expiry, or past it,
/// or any record under `force`, costs exactly one refresh request and
/// exactly one save where the provider grants and validates and the store
/// takes the write: the record saved and handed out is the grant, issued at
/// the time of validation to the validated identity.
pub proof fn lemma_stale_record_is_refreshed_once(
    record: TokenDataView,
    force: bool,
    checked_at: int,
    grant: TokenGrantView,
    refreshed_at: int,
    username: Seq<char>,
    issued_at: int,
    saved_at: int,
    afterwards: Seq<(TokenEventView, int)>,
)
    requires
        force || needs_refresh(record.expires_at, checked_at),
        issuable(grant, issued_at),
    ensures
        ({
            let start = TokenFlowView::Load { force };
            let fresh = issued(grant, username, issued_at);
            let events = seq![
                (TokenEventView::Loaded(Ok(Some(record))), checked_at),
                (TokenEventView::Refreshed(Ok(grant)), refreshed_at),
                (TokenEventView::Validated(Ok(username)), issued_at),
                (TokenEventView::Saved(Ok(())), saved_at),
            ] + afterwards;
            let run = token_run(start, events);
            &&& run.len() >= 4
            &&& run[0] == (TokenFlowView::Refresh { refresh_token: record.refresh_token })
            &&& run[1] == (TokenFlowView::Validate { grant })
            &&& run[2] == (TokenFlowView::Save { fresh })
            &&& run[3] == TokenFlowView::Finished(Ok(fresh))
            &&& refreshes_sent(run) == 1
            &&& records_saved(run) == 1
            &&& stored_after(Some(record), run) == Some(fresh)
            &&& token_end(start, events) == TokenFlowView::Finished(Ok(fresh))
        }),
{
    let start = TokenFlowView::Load { force };
    let fresh = issued(grant, username, issued_at);
    let e0 = (TokenEventView::Loaded(Ok(Some(record))), checked_at);
    let e1 = (TokenEventView::Refreshed(Ok(grant)), refreshed_at);
    let e2 = (TokenEventView::Validated(Ok(username)), issued_at);
    let e3 = (TokenEventView::Saved(Ok(())), saved_at);
    let events = seq![e0, e1, e2, e3] + afterwards;
    let s0 = TokenFlowView::Refresh { refresh_token: record.refresh_token };
    let s1 = TokenFlowView::Validate { grant };
    let s2 = TokenFlowView::Save { fresh };
    let s3 = TokenFlowView::Finished(Ok(fresh));
    let events1 = events.drop_first();
    let events2 = events1.drop_first();
    let events3 = events2.drop_first();
    assert(events[0] == e0 && events1[0] == e1 && events2[0] == e2 && events3[0] == e3);
    assert(events3.drop_first() =~= afterwards);
    lemma_finished_request_does_nothing(s3, afterwards, Some(fresh));
    let run3 = token_run(s2, events3);
    let run2 = token_run(s1, events2);
    let run1 = token_run(s0, events1);
    let run = token_run(start, events);
    assert(run3[0] == s3 && run3.drop_first() =~= token_run(s3, afterwards));
    assert(run2[0] == s2 && run2.drop_first() =~= run3);
    assert(run1[0] == s1 && run1.drop_first() =~= run2);
    assert(run[0] == s0 && run.drop_first() =~= run1);
    assert(refreshes_sent(run3) == 0 && records_saved(run3) == 0);
    assert(refreshes_sent(run2) == 0 && records_saved(run2) == 1);
    assert(refreshes_sent(run1) == 0 && records_saved(run1) == 1);
    assert(stored_after(Some(fresh), run3) == Some(fresh));
    assert(stored_after(Some(record), run2) == Some(fresh));
    assert(stored_after(Some(record), run1) == Some(fresh));
    assert(token_end(s2, events3) == s3);
    assert(token_end(s1, events2) == s3);
    assert(token_end(s0, events1) == s3);
}

/// Save, then load: whatever document a request asks the host to write is
/// that of the record it is saving, and a load that finds the document
/// yields that record.
pub proof fn lemma_saved_record_loads_back(state: TokenFlowView, provider: ProviderView)
    ensures
        token_action(state, provider) matches TokenActionView::WriteStore(document) ==> state is Save
            && document == encoded_record(state->fresh) && load_outcome(
            ReadOutcomeView::Found(document),
        ) == Ok::<Option<TokenDataView>, AuthErrorView>(Some(state->fresh)),
{
}

/// A record reaches the store only after the provider has validated its
/// access token: the one step that asks for a save is the successful
/// validation of a grant, and what it asks to save is that grant, issued at
/// `now` to the validated identity.
pub proof fn lemma_only_validated_records_are_saved(
    state: TokenFlowView,
    event: TokenEventView,
    now: int,
)
    requires
        !(state is Save),
        token_step(state, event, now) is Save,
    ensures
        state is Validate,
        event matches TokenEventView::Validated(Ok(username)) && token_step(state, event, now) == (
        TokenFlowView::Save { fresh: issued(state->grant, username, now) }),
{
}

/// A refresh that the provider refuses ends the request with that failure
/// after the one refresh request; nothing is saved, and the store keeps the
/// record it held.
pub proof fn lemma_failed_refresh_keeps_the_record(
    record: TokenDataView,
    force: bool,
    checked_at: int,
    failure: AuthErrorView,
    failed_at: int,
    afterwards: Seq<(TokenEventView, int)>,
)
    requires
        force || needs_refresh(record.expires_at, checked_at),
    ensures
        ({
            let start = TokenFlowView::Load { force };
            let events = seq![
                (TokenEventView::Loaded(Ok(Some(record))), checked_at),
                (TokenEventView::Refreshed(Err(failure)), failed_at),
            ] + afterwards;
            let run = token_run(start, events);
            &&& refreshes_sent(run) == 1
            &&& records_saved(run) == 0
            &&& stored_after(Some(record), run) == Some(record)
            &&& token_end(start, events) == TokenFlowView::Finished(Err(failure))
        }),
{
    let start = TokenFlowView::Load { force };
    let e0 = (TokenEventView::Loaded(Ok(Some(record))), checked_at);
    let e1 = (TokenEventView::Refreshed(Err(failure)), failed_at);
    let events = seq![e0, e1] + afterwards;
    let s0 = TokenFlowView::Refresh { refresh_token: record.refresh_token };
    let s1 = TokenFlowView::Finished(Err(failure));
    let events1 = events.drop_first();
    assert(events[0] == e0 && events1[0] == e1);
    assert(events1.drop_first() =~= afterwards);
    lemma_finished_request_does_nothing(s1, afterwards, Some(record));
    let run1 = token_run(s0, events1);
    let run = token_run(start, events);
    assert(run1[0] == s1 && run1.drop_first() =~= token_run(s1, afterwards));
    assert(run[0] == s0 && run.drop_first() =~= run1);
    assert(refreshes_sent(run1) == 0 && records_saved(run1) == 0);
    assert(stored_after(Some(record), run1) == Some(record));
    assert(token_end(s0, events1) == s1);
}

/// A new token pair that the provider does not validate is dropped: the
/// request ends with that failure, nothing is saved, and the store keeps the
/// record it held.
pub proof fn lemma_failed_validation_keeps_the_record(
    record: TokenDataView,
    force: bool,
    checked_at: int,
    grant: TokenGrantView,
    refreshed_at: int,
    failure: AuthErrorView,
    failed_at: int,
    afterwards: Seq<(TokenEventView, int)>,
)
    requires
        force || needs_refresh(record.expires_at, checked_at),
    ensures
        ({
            let start = TokenFlowView::Load { force };
            let events = seq![
                (TokenEventView::Loaded(Ok(Some(record))), checked_at),
                (TokenEventView::Refreshed(Ok(grant)), refreshed_at),
                (TokenEventView::Validated(Err(failure)), failed_at),
            ] + afterwards;
            let run = token_run(start, events);
            &&& refreshes_sent(run) == 1
            &&& records_saved(run) == 0
            &&& stored_after(Some(record), run) == Some(record)
            &&& token_end(start, events) == TokenFlowView::Finished(Err(failure))
        }),
{
    let start = TokenFlowView::Load { force };
    let e0 = (TokenEventView::Loaded(Ok(Some(record))), checked_at);
    let e1 = (TokenEventView::Refreshed(Ok(grant)), refreshed_at);
    let e2 = (TokenEventView::Validated(Err(failure)), failed_at);
    let events = seq![e0, e1, e2] + afterwards;
    let s0 = TokenFlowView::Refresh { refresh_token: record.refresh_token };
    let s1 = TokenFlowView::Validate { grant };
    let s2 = TokenFlowView::Finished(Err(failure));
    let events1 = events.drop_first();
    let events2 = events1.drop_first();
    assert(events[0] == e0 && events1[0] == e1 && events2[0] == e2);
    assert(events2.drop_first() =~= afterwards);
    lemma_finished_request_does_nothing(s2, afterwards, Some(record));
    let run2 = token_run(s1, events2);
    let run1 = token_run(s0, events1);
    let run = token_run(start, events);
    assert(run2[0] == s2 && run2.drop_first() =~= token_run(s2, afterwards));
    assert(run1[0] == s1 && run1.drop_first() =~= run2);
    assert(run[0] == s0 && run.drop_first() =~= run1);
    assert(refreshes_sent(run2) == 0 && records_saved(run2) == 0);
    assert(refreshes_sent(run1) == 0 && records_saved(run1) == 0);
    assert(stored_after(Some(record), run2) == Some(record));
    assert(stored_after(Some(record), run1) == Some(record));
    assert(token_end(s1, events2) == s2);
    assert(token_end(s0, events1) == s2);
}

/// Where no record is stored the request fails as not authenticated,
/// without a request to the provider and without a write to the store.
pub proof fn lemma_missing_record_is_not_authenticated(
    force: bool,
    now: int,
    afterwards: Seq<(TokenEventView, int)>,
)
    ensures
        ({
            let start = TokenFlowView::Load { force };
            let events = seq![(TokenEventView::Loaded(Ok(None)), now)] + afterwards;
            let run = token_run(start, events);
            &&& requests_sent(run) == 0
            &&& records_saved(run) == 0
            &&& stored_after(None, run) == None::<TokenDataView>
            &&& token_end(start, events) == TokenFlowView::Finished(
                Err(AuthErrorView::NotAuthenticated),
            )
        }),
{
    let start = TokenFlowView::Load { force };
    let e0 = (TokenEventView::Loaded(Ok(None)), now);
    let events = seq![e0] + afterwards;
    let finished = TokenFlowView::Finished(Err(AuthErrorView::NotAuthenticated));
    assert(events[0] == e0);
    assert(events.drop_first() =~= afterwards);
    lemma_finished_request_does_nothing(finished, afterwards, None);
    let run = token_run(start, events);
    assert(run[0] == finished);
    assert(run.drop_first() =~= token_run(finished, afterwards));
}

// ---------------------------------------------------------------------------
// Requests under the guard
// ---------------------------------------------------------------------------

/// What a request is told, from first to last, by a host whose store holds
/// `store` and takes every write, and a provider that grants `grant` and
/// validates it as `username`, the clock reading `now`. Once the request is
/// finished the rest of the script no longer reaches it.
pub open spec fn request_script(
    store: Option<TokenDataView>,
    grant: TokenGrantView,
    username: Seq<char>,
    now: int,
) -> Seq<(TokenEventView, int)> {
    seq![
        (TokenEventView::Loaded(Ok(store)), now),
        (TokenEventView::Refreshed(Ok(grant)), now),
        (TokenEventView::Validated(Ok(username)), now),
        (TokenEventView::Saved(Ok(())), now),
    ]
}

/// What a series of requests came to.
pub struct Served {
    /// The result handed to each caller, in the order served.
    pub results: Seq<Result<TokenDataView, AuthErrorView>>,
    /// The refresh requests sent to the provider, all callers together.
    pub refreshes: nat,
    /// The records written to the store, all callers together.
    pub saves: nat,
    /// What the store holds in the end.
    pub store: Option<TokenDataView>,
}

/// Requests that arrive together are served one after another, because each
/// holds the guard from its load to its last write: the request at
/// `times[0]` runs to its end on the store as it finds it, the next one
/// finds the store as the first left it, and so on.
pub open spec fn serve_in_turn(
    store: Option<TokenDataView>,
    times: Seq<int>,
    grant: TokenGrantView,
    username: Seq<char>,
) -> Served
    decreases times.len(),
{
    if times.len() == 0 {
        Served { results: Seq::empty(), refreshes: 0, saves: 0, store }
    } else {
        let start = TokenFlowView::Load { force: false };
        let script = request_script(store, grant, username, times[0]);
        let run = token_run(start, script);
        let rest = serve_in_turn(stored_after(store, run), times.drop_first(), grant, username);
        Served {
            results: seq![token_end(start, script)->Finished_0] + rest.results,
            refreshes: refreshes_sent(run) + rest.refreshes,
            saves: records_saved(run) + rest.saves,
            store: rest.store,
        }
    }
}

/// Requests that find a record still further from its expiry than the
/// lookahead window are all handed that record; none of them refreshes,
/// none writes to the store, and the store keeps the record.
pub proof fn lemma_fresh_record_serves_all(
    record: TokenDataView,
    times: Seq<int>,
    grant: TokenGrantView,
    username: Seq<char>,
)
    requires
        forall|i: int| 0 <= i < times.len() ==> !needs_refresh(record.expires_at, times[i]),
    ensures
        ({
            let served = serve_in_turn(Some(record), times, grant, username);
            &&& served.refreshes == 0
            &&& served.saves == 0
            &&& served.store == Some(record)
            &&& served.results.len() == times.len()
            &&& forall|i: int| 0 <= i < times.len() ==> served.results[i] == Ok::<
                TokenDataView,
                AuthErrorView,
            >(record)
        }),
    decreases times.len(),
{
    if times.len() > 0 {
        let later = times.drop_first();
        let script = request_script(Some(record), grant, username, times[0]);
        assert(script =~= seq![script[0]] + script.drop_first());
        lemma_fresh_record_is_handed_out(
            record,
            times[0],
            script.drop_first(),
            ProviderView { client_id: Seq::empty(), scopes: Seq::empty() },
        );
        let start = TokenFlowView::Load { force: false };
        let run = token_run(start, script);
        let finished = TokenFlowView::Finished(Ok(record));
        assert(run[0] == finished);
        assert(run.drop_first() =~= token_run(finished, script.drop_first()));
        lemma_finished_request_does_nothing(finished, script.drop_first(), Some(record));
        assert(refreshes_sent(run) == 0);
        assert(records_saved(run) == 0);
        assert(stored_after(Some(record), run) == Some(record));
        assert forall|i: int| 0 <= i < later.len() implies !needs_refresh(
            record.expires_at,
            later[i],
        ) by {
            assert(later[i] == times[i + 1]);
        }
        lemma_fresh_record_serves_all(record, later, grant, username);
        let rest = serve_in_turn(Some(record), later, grant, username);
        let served = serve_in_turn(Some(record), times, grant, username);
        assert(served.results =~= seq![Ok::<TokenDataView, AuthErrorView>(record)] + rest.results);
        assert forall|i: int| 0 <= i < times.len() implies served.results[i] == Ok::<
            TokenDataView,
            AuthErrorView,
        >(record) by {
            if i > 0 {
                assert(served.results[i] == rest.results[i - 1]);
            }
        }
    }
}

/// Any number of requests that arrive together at a record within the
/// lookahead window of its expiry cost exactly one refresh request and
/// exactly one write to the store between them, and every one of them is
/// handed the refreshed record. The requests
/// are served at `times`, the first of them at `times[0]`; the provider
/// grants `grant`, whose access token is still further from its expiry than
/// the lookahead window when the last of them is served.
pub proof fn lemma_one_refresh_serves_all(
    record: TokenDataView,
    times: Seq<int>,
    grant: TokenGrantView,
    username: Seq<char>,
)
    requires
        times.len() > 0,
        needs_refresh(record.expires_at, times[0]),
        issuable(grant, times[0]),
        forall|i: int|
            0 < i < times.len() ==> !needs_refresh(
                times[0] + grant.expires_in,
                #[trigger] times[i],
            ),
    ensures
        ({
            let served = serve_in_turn(Some(record), times, grant, username);
            let fresh = issued(grant, username, times[0]);
            &&& served.refreshes == 1
            &&& served.saves == 1
            &&& served.store == Some(fresh)
            &&& served.results.len() == times.len()
            &&& forall|i: int| 0 <= i < times.len() ==> served.results[i] == Ok::<
                TokenDataView,
                AuthErrorView,
            >(fresh)
        }),
{
    let later = times.drop_first();
    let fresh = issued(grant, username, times[0]);
    let script = request_script(Some(record), grant, username, times[0]);
    assert(script + Seq::empty() =~= script);
    lemma_stale_record_is_refreshed_once(
        record,
        false,
        times[0],
        grant,
        times[0],
        username,
        times[0],
        times[0],
        Seq::empty(),
    );
    assert forall|i: int| 0 <= i < later.len() implies !needs_refresh(
        fresh.expires_at,
        later[i],
    ) by {
        assert(later[i] == times[i + 1]);
    }
    lemma_fresh_record_serves_all(fresh, later, grant, username);
    let rest = serve_in_turn(Some(fresh), later, grant, username);
    let served = serve_in_turn(Some(record), times, grant, username);
    assert(served.results =~= seq![Ok::<TokenDataView, AuthErrorView>(fresh)] + rest.results);
    assert forall|i: int| 0 <= i < times.len() implies served.results[i] == Ok::<
        TokenDataView,
        AuthErrorView,
    >(fresh) by {
        if i > 0 {
            assert(served.results[i] == rest.results[i - 1]);
        }
    }
}

} // verus!
