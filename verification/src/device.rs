//! Completing a device authorization: wait, poll the provider, and on the
//! user's consent validate and persist the granted tokens.
//!
//! The flow is a state machine in the manner of [`crate::session`]. While it
//! sleeps, polls and validates it owns no stored state; the host takes the
//! refresh guard only around the one write that ends a successful flow. The
//! flow is cancelled by dropping it: nothing is stored before that write.

use vstd::prelude::*;
use crate::clock::unix_now;
use crate::error::{AuthError, AuthErrorView};
use crate::http::{HttpOutcome, HttpOutcomeView, HttpRequest, HttpRequestView};
use crate::provider::{
    interpret_poll, interpret_validate, poll_outcome, poll_request, text_result_view,
    validate_outcome, validate_request, PollReply, PollReplyView, Provider, ProviderView,
};
use crate::record::{
    encoded_record, issuable, issued, loads_back, TokenData, TokenDataView, TokenGrant, TokenGrantView,
};
use crate::session::token_result_view;
use crate::store::{
    done_view, interpret_write, load_outcome, save_outcome, ReadOutcomeView, WriteOutcome,
    WriteOutcomeView,
};

verus! {

/// The shortest wait between two polls, in seconds.
pub const MIN_POLL_INTERVAL_SECS: u64 = 5;

/// What the host has to do next in a device authorization.
#[derive(Debug, PartialEq, Eq)]
pub enum PollPhase {
    /// Sleep for the poll interval.
    Sleep,
    /// Poll the token endpoint once.
    Poll,
    /// Resolve the identity bound to the granted access token.
    Validate { grant: TokenGrant },
    /// Persist the new record.
    Save { fresh: TokenData },
    /// The flow is over: logged in with the record, or logged out with the
    /// failure.
    Finished(Result<TokenData, AuthError>),
}

/// Mathematical model of a [`PollPhase`].
pub enum PollPhaseView {
    Sleep,
    Poll,
    Validate { grant: TokenGrantView },
    Save { fresh: TokenDataView },
    Finished(Result<TokenDataView, AuthErrorView>),
}

impl View for PollPhase {
    type V = PollPhaseView;

    open spec fn view(&self) -> PollPhaseView {
        match self {
            PollPhase::Sleep => PollPhaseView::Sleep,
            PollPhase::Poll => PollPhaseView::Poll,
            PollPhase::Validate { grant } => PollPhaseView::Validate { grant: grant@ },
            PollPhase::Save { fresh } => PollPhaseView::Save { fresh: fresh@ },
            PollPhase::Finished(result) => PollPhaseView::Finished(token_result_view(*result)),
        }
    }
}

/// A device authorization in progress.
#[derive(Debug, PartialEq, Eq)]
pub struct DevicePoll {
    /// The device code the provider issued at the start of the flow.
    pub device_code: String,
    /// Seconds the provider asked to wait between polls.
    pub interval: u64,
    /// Seconds from the start of the flow until the device code expires.
    pub expires_in: u64,
    pub phase: PollPhase,
}

/// Mathematical model of a [`DevicePoll`].
pub struct DevicePollView {
    pub device_code: Seq<char>,
    pub interval: u64,
    pub expires_in: u64,
    pub phase: PollPhaseView,
}

impl View for DevicePoll {
    type V = DevicePollView;

    open spec fn view(&self) -> DevicePollView {
        DevicePollView {
            device_code: self.device_code@,
            interval: self.interval,
            expires_in: self.expires_in,
            phase: self.phase@,
        }
    }
}

/// What the host's work came to, decoded.
#[derive(Debug, PartialEq, Eq)]
pub enum PollEvent {
    /// The sleep is over; `elapsed` whole seconds have passed since the flow
    /// began.
    Woke { elapsed: u64 },
    /// The provider answered the poll.
    Polled(PollReply),
    /// The provider answered the validation request.
    Validated(Result<String, AuthError>),
    /// The store was written.
    Saved(Result<(), AuthError>),
}

/// Mathematical model of a [`PollEvent`].
pub enum PollEventView {
    Woke { elapsed: u64 },
    Polled(PollReplyView),
    Validated(Result<Seq<char>, AuthErrorView>),
    Saved(Result<(), AuthErrorView>),
}

impl View for PollEvent {
    type V = PollEventView;

    open spec fn view(&self) -> PollEventView {
        match self {
            PollEvent::Woke { elapsed } => PollEventView::Woke { elapsed: *elapsed },
            PollEvent::Polled(reply) => PollEventView::Polled(reply@),
            PollEvent::Validated(result) => PollEventView::Validated(text_result_view(*result)),
            PollEvent::Saved(result) => PollEventView::Saved(done_view(*result)),
        }
    }
}

/// The seconds to sleep before a poll: the provider's interval, and never
/// less than the minimum.
pub open spec fn poll_wait(interval: u64) -> u64 {
    if interval >= MIN_POLL_INTERVAL_SECS {
        interval
    } else {
        MIN_POLL_INTERVAL_SECS
    }
}

/// The transition of the phase on `event`, the clock reading `now`.
///
/// After each sleep the deadline is checked before anything is sent: once
/// `expires_in` seconds have passed the flow ends as expired. A pending
/// answer sends the flow back to sleep, a grant moves it on to validation,
/// any other answer ends it. A validated grant is stamped with `now` plus
/// its lifetime and saved. An event that does not answer the pending step
/// leaves the phase as it is.
pub open spec fn phase_step(
    phase: PollPhaseView,
    expires_in: u64,
    event: PollEventView,
    now: int,
) -> PollPhaseView {
    match (phase, event) {
        (PollPhaseView::Sleep, PollEventView::Woke { elapsed }) => {
            if elapsed >= expires_in {
                PollPhaseView::Finished(Err(AuthErrorView::FlowExpired))
            } else {
                PollPhaseView::Poll
            }
        },
        (PollPhaseView::Poll, PollEventView::Polled(PollReplyView::Granted(grant))) => {
            PollPhaseView::Validate { grant }
        },
        (PollPhaseView::Poll, PollEventView::Polled(PollReplyView::Pending)) => {
            PollPhaseView::Sleep
        },
        (PollPhaseView::Poll, PollEventView::Polled(PollReplyView::Failed(error))) => {
            PollPhaseView::Finished(Err(error))
        },
        (PollPhaseView::Validate { grant }, PollEventView::Validated(Err(error))) => {
            PollPhaseView::Finished(Err(error))
        },
        (PollPhaseView::Validate { grant }, PollEventView::Validated(Ok(username))) => {
            if issuable(grant, now) {
                PollPhaseView::Save { fresh: issued(grant, username, now) }
            } else {
                PollPhaseView::Finished(Err(AuthErrorView::Decode))
            }
        },
        (PollPhaseView::Save { fresh }, PollEventView::Saved(Err(error))) => {
            PollPhaseView::Finished(Err(error))
        },
        (PollPhaseView::Save { fresh }, PollEventView::Saved(Ok(done))) => {
            PollPhaseView::Finished(Ok(fresh))
        },
        (phase, event) => phase,
    }
}

/// The transition of a device authorization on `event`: the phase moves,
/// the device code, the interval and the lifetime stay.
pub open spec fn poll_step(state: DevicePollView, event: PollEventView, now: int) -> DevicePollView {
    DevicePollView {
        device_code: state.device_code,
        interval: state.interval,
        expires_in: state.expires_in,
        phase: phase_step(state.phase, state.expires_in, event, now),
    }
}

/// What the host reports back, as it comes.
#[derive(Debug, Clone, PartialEq, Eq)]
pub enum PollInput {
    /// The sleep is over; `elapsed` whole seconds have passed since the flow
    /// began.
    Woke { elapsed: u64 },
    /// The report of sending a request.
    Http(HttpOutcome),
    /// The report of writing the store.
    Written(WriteOutcome),
}

/// Mathematical model of a [`PollInput`].
pub enum PollInputView {
    Woke { elapsed: u64 },
    Http(HttpOutcomeView),
    Written(WriteOutcomeView),
}

impl View for PollInput {
    type V = PollInputView;

    open spec fn view(&self) -> PollInputView {
        match self {
            PollInput::Woke { elapsed } => PollInputView::Woke { elapsed: *elapsed },
            PollInput::Http(outcome) => PollInputView::Http(outcome@),
            PollInput::Written(outcome) => PollInputView::Written(outcome@),
        }
    }
}

/// What the host is asked to do.
#[derive(Debug, PartialEq, Eq)]
pub enum PollAction {
    /// Sleep for `secs` seconds and report a [`PollInput::Woke`].
    Sleep { secs: u64 },
    /// Send the request and report a [`PollInput::Http`].
    Send(HttpRequest),
    /// Under the refresh guard, replace the stored document with this text
    /// and report a [`PollInput::Written`].
    WriteStore(String),
    /// Hand the result to the caller.
    Finish(Result<TokenData, AuthError>),
}

/// Mathematical model of a [`PollAction`].
pub enum PollActionView {
    Sleep { secs: u64 },
    Send(HttpRequestView),
    WriteStore(Seq<char>),
    Finish(Result<TokenDataView, AuthErrorView>),
}

impl View for PollAction {
    type V = PollActionView;

    open spec fn view(&self) -> PollActionView {
        match self {
            PollAction::Sleep { secs } => PollActionView::Sleep { secs: *secs },
            PollAction::Send(request) => PollActionView::Send(request@),
            PollAction::WriteStore(document) => PollActionView::WriteStore(document@),
            PollAction::Finish(result) => PollActionView::Finish(token_result_view(*result)),
        }
    }
}

/// Model of an event, if there is one.
pub open spec fn poll_event_view(event: Option<PollEvent>) -> Option<PollEventView> {
    match event {
        Some(event) => Some(event@),
        None => None,
    }
}

/// The action that a state asks of the host. A record is written only as a
/// document that decodes to it again; a record that has none ends the flow
/// with a decode failure in place of the write.
pub open spec fn poll_action(state: DevicePollView, provider: ProviderView) -> PollActionView {
    match state.phase {
        PollPhaseView::Sleep => PollActionView::Sleep { secs: poll_wait(state.interval) },
        PollPhaseView::Poll => PollActionView::Send(poll_request(provider, state.device_code)),
        PollPhaseView::Validate { grant } => PollActionView::Send(
            validate_request(grant.access_token),
        ),
        PollPhaseView::Save { fresh } => if loads_back(fresh) {
            PollActionView::WriteStore(encoded_record(fresh))
        } else {
            PollActionView::Finish(Err(AuthErrorView::Decode))
        },
        PollPhaseView::Finished(result) => PollActionView::Finish(result),
    }
}

/// The event that a report stands for in a phase; none where the report
/// does not answer what the phase asked for.
pub open spec fn poll_event(phase: PollPhaseView, input: PollInputView) -> Option<PollEventView> {
    match (phase, input) {
        (PollPhaseView::Sleep, PollInputView::Woke { elapsed }) => Some(
            PollEventView::Woke { elapsed },
        ),
        (PollPhaseView::Poll, PollInputView::Http(outcome)) => Some(
            PollEventView::Polled(poll_outcome(outcome)),
        ),
        (PollPhaseView::Validate { grant }, PollInputView::Http(outcome)) => Some(
            PollEventView::Validated(validate_outcome(outcome)),
        ),
        (PollPhaseView::Save { fresh }, PollInputView::Written(outcome)) => Some(
            PollEventView::Saved(save_outcome(outcome)),
        ),
        (phase, input) => None,
    }
}

/// The state after a report and the action it asks for next.
pub open spec fn poll_advance(
    state: DevicePollView,
    input: PollInputView,
    now: int,
    provider: ProviderView,
) -> (DevicePollView, PollActionView) {
    let next = match poll_event(state.phase, input) {
        Some(event) => poll_step(state, event, now),
        None => state,
    };
    (next, poll_action(next, provider))
}

impl PollPhase {
    /// Moves the phase on by one decoded event.
    fn step(self, expires_in: u64, event: PollEvent, now: i64) -> (next: PollPhase)
        ensures
            next@ == phase_step(self@, expires_in, event@, now as int),
    {
        match (self, event) {
            (PollPhase::Sleep, PollEvent::Woke { elapsed }) => {
                if elapsed >= expires_in {
                    PollPhase::Finished(Err(AuthError::FlowExpired))
                } else {
                    PollPhase::Poll
                }
            },
            (PollPhase::Poll, PollEvent::Polled(PollReply::Granted(grant))) => {
                PollPhase::Validate { grant }
            },
            (PollPhase::Poll, PollEvent::Polled(PollReply::Pending)) => PollPhase::Sleep,
            (PollPhase::Poll, PollEvent::Polled(PollReply::Failed(error))) => {
                PollPhase::Finished(Err(error))
            },
            (PollPhase::Validate { grant }, PollEvent::Validated(Err(error))) => {
                PollPhase::Finished(Err(error))
            },
            (PollPhase::Validate { grant }, PollEvent::Validated(Ok(username))) => {
                match TokenData::issue(grant, username, now) {
                    Some(fresh) => PollPhase::Save { fresh },
                    None => PollPhase::Finished(Err(AuthError::Decode)),
                }
            },
            (PollPhase::Save { fresh }, PollEvent::Saved(Err(error))) => {
                PollPhase::Finished(Err(error))
            },
            (PollPhase::Save { fresh }, PollEvent::Saved(Ok(done))) => {
                PollPhase::Finished(Ok(fresh))
            },
            (phase, event) => phase,
        }
    }
}

impl DevicePoll {
    /// A flow for the device code that the provider issued, with the
    /// interval and the lifetime it reported. The flow starts asleep.
    pub fn begin(device_code: String, interval: u64, expires_in: u64) -> (flow: DevicePoll)
        ensures
            flow@ == (DevicePollView {
                device_code: device_code@,
                interval,
                expires_in,
                phase: PollPhaseView::Sleep,
            }),
    {
        DevicePoll { device_code, interval, expires_in, phase: PollPhase::Sleep }
    }

    /// Whether the flow is over.
    pub fn is_finished(&self) -> (finished: bool)
        ensures
            finished == (self@.phase is Finished),
    {
        match &self.phase {
            PollPhase::Finished(_) => true,
            _ => false,
        }
    }

    /// The seconds to sleep before each poll.
    pub fn wait_secs(&self) -> (secs: u64)
        ensures
            secs == poll_wait(self.interval),
    {
        if self.interval >= MIN_POLL_INTERVAL_SECS {
            self.interval
        } else {
            MIN_POLL_INTERVAL_SECS
        }
    }

    /// Moves the flow on by one decoded event, the clock reading `now`.
    pub fn step(self, event: PollEvent, now: i64) -> (next: DevicePoll)
        ensures
            next@ == poll_step(self@, event@, now as int),
    {
        let DevicePoll { device_code, interval, expires_in, phase } = self;
        let phase = phase.step(expires_in, event, now);
        DevicePoll { device_code, interval, expires_in, phase }
    }
    /// The action this state asks of the host.
    pub fn action(&self, provider: &Provider) -> (action: PollAction)
        ensures
            action@ == poll_action(self@, provider@),
    {
        match &self.phase {
            PollPhase::Sleep => PollAction::Sleep { secs: self.wait_secs() },
            PollPhase::Poll => PollAction::Send(provider.poll_request(self.device_code.as_str())),
            PollPhase::Validate { grant } => PollAction::Send(
                Provider::validate_request(grant.access_token.as_str()),
            ),
            PollPhase::Save { fresh } => match fresh.to_checked_json() {
                Some(document) => PollAction::WriteStore(document),
                None => PollAction::Finish(Err(AuthError::Decode)),
            },
            PollPhase::Finished(Ok(record)) => PollAction::Finish(Ok(record.clone())),
            PollPhase::Finished(Err(error)) => PollAction::Finish(Err(error.clone())),
        }
    }

    /// Decodes a report into the event it stands for in this state; `None`
    /// where it does not answer what this state asked for.
    pub fn decode(&self, input: PollInput) -> (event: Option<PollEvent>)
        ensures
            poll_event_view(event) == poll_event(self@.phase, input@),
    {
        match (&self.phase, input) {
            (PollPhase::Sleep, PollInput::Woke { elapsed }) => Some(PollEvent::Woke { elapsed }),
            (PollPhase::Poll, PollInput::Http(outcome)) => Some(
                PollEvent::Polled(interpret_poll(outcome)),
            ),
            (PollPhase::Validate { grant }, PollInput::Http(outcome)) => Some(
                PollEvent::Validated(interpret_validate(outcome)),
            ),
            (PollPhase::Save { fresh }, PollInput::Written(outcome)) => Some(
                PollEvent::Saved(interpret_write(outcome)),
            ),
            (phase, input) => None,
        }
    }

    /// Takes the host's report, the clock reading `now`, and returns the
    /// state the flow is in then with the action it asks for.
    pub fn advance_at(self, input: PollInput, now: i64, provider: &Provider) -> (moved: (
        DevicePoll,
        PollAction,
    ))
        ensures
            (moved.0@, moved.1@) == poll_advance(self@, input@, now as int, provider@),
    {
        let next = match self.decode(input) {
            Some(event) => self.step(event, now),
            None => self,
        };
        let action = next.action(provider);
        (next, action)
    }

    /// Takes the host's report and returns the state the flow is in then
    /// with the action it asks for. Reads the clock; the outcome is that of
    /// [`DevicePoll::advance_at`] for the time read.
    pub fn advance(self, input: PollInput, provider: &Provider) -> (moved: (DevicePoll, PollAction))
        ensures
            exists|now: i64|
                (moved.0@, moved.1@) == #[trigger] poll_advance(
                    self@,
                    input@,
                    now as int,
                    provider@,
                ),
    {
        let now = unix_now();
        self.advance_at(input, now, provider)
    }
}

// ---------------------------------------------------------------------------
// Runs of the flow
// ---------------------------------------------------------------------------

/// The states a flow passes through when `events` are fed to it in order,
/// the clock reading `now` throughout. The host performs the action of each
/// state in turn, so the states of a run are the work it does.
pub open spec fn poll_run(state: DevicePollView, events: Seq<PollEventView>, now: int) -> Seq<
    DevicePollView,
>
    decreases events.len(),
{
    if events.len() == 0 {
        Seq::empty()
    } else {
        let next = poll_step(state, events[0], now);
        seq![next] + poll_run(next, events.drop_first(), now)
    }
}

/// The state a flow is in after `events`.
pub open spec fn poll_end(state: DevicePollView, events: Seq<PollEventView>, now: int) -> DevicePollView
    decreases events.len(),
{
    if events.len() == 0 {
        state
    } else {
        poll_end(poll_step(state, events[0], now), events.drop_first(), now)
    }
}

/// The number of polls that a run asks the host to send.
pub open spec fn polls_sent(run: Seq<DevicePollView>) -> nat
    decreases run.len(),
{
    if run.len() == 0 {
        0
    } else {
        let rest = polls_sent(run.drop_first());
        if run[0].phase is Poll {
            rest + 1
        } else {
            rest
        }
    }
}

/// The number of save steps in a run. Each asks the host for one write (see
/// [`poll_action`]), and the host reports a save only in answer to it.
pub open spec fn saves_asked(run: Seq<DevicePollView>) -> nat
    decreases run.len(),
{
    if run.len() == 0 {
        0
    } else {
        let rest = saves_asked(run.drop_first());
        if run[0].phase is Save {
            rest + 1
        } else {
            rest
        }
    }
}

/// The events of as many rounds as `waits` has entries, in each of which
/// the host wakes up after that many seconds and the provider answers that
/// the authorization is pending.
pub open spec fn pending_rounds(waits: Seq<u64>) -> Seq<PollEventView>
    decreases waits.len(),
{
    if waits.len() == 0 {
        Seq::empty()
    } else {
        seq![
            PollEventView::Woke { elapsed: waits[0] },
            PollEventView::Polled(PollReplyView::Pending),
        ] + pending_rounds(waits.drop_first())
    }
}

/// A finished flow takes no further step: whatever is reported to it, it
/// stays as it is.
pub proof fn lemma_finished_flow_stays(state: DevicePollView, event: PollEventView, now: int)
    requires
        state.phase is Finished,
    ensures
        poll_step(state, event, now) == state,
{
}

/// Whatever events reach a finished flow, no poll is sent, no save is
/// asked for and the flow ends as it was.
pub proof fn lemma_finished_flow_sends_nothing(
    state: DevicePollView,
    events: Seq<PollEventView>,
    now: int,
)
    requires
        state.phase is Finished,
    ensures
        polls_sent(poll_run(state, events, now)) == 0,
        saves_asked(poll_run(state, events, now)) == 0,
        poll_end(state, events, now) == state,
    decreases events.len(),
{
    if events.len() > 0 {
        let rest = events.drop_first();
        lemma_finished_flow_stays(state, events[0], now);
        lemma_finished_flow_sends_nothing(state, rest, now);
        let run = poll_run(state, events, now);
        assert(run[0] == state);
        assert(run.drop_first() =~= poll_run(state, rest, now));
    }
}

/// Save, then load: whatever document a device authorization asks the host
/// to write is that of the record it is saving, and a load that finds the
/// document yields that record.
pub proof fn lemma_saved_grant_loads_back(state: DevicePollView, provider: ProviderView)
    ensures
        poll_action(state, provider) matches PollActionView::WriteStore(document) ==> state.phase is Save
            && document == encoded_record(state.phase->fresh) && load_outcome(
            ReadOutcomeView::Found(document),
        ) == Ok::<Option<TokenDataView>, AuthErrorView>(Some(state.phase->fresh)),
{
}

/// Nothing is committed before the last step of a successful flow: the one
/// step that asks for a save is the successful validation of a grant, and
/// what it asks to save is that grant, issued at `now` to the validated
/// identity.
pub proof fn lemma_only_validated_grants_are_saved(
    state: DevicePollView,
    event: PollEventView,
    now: int,
)
    requires
        !(state.phase is Save),
        poll_step(state, event, now).phase is Save,
    ensures
        state.phase is Validate,
        event matches PollEventView::Validated(Ok(username)) && poll_step(state, event, now).phase
            == (PollPhaseView::Save { fresh: issued(state.phase->grant, username, now) }),
{
}

/// One round in which the provider answers "pending" costs one poll, asks
/// for no save and leaves a sleeping flow as it was, whatever follows.
pub proof fn lemma_pending_round(
    state: DevicePollView,
    wait: u64,
    rest: Seq<PollEventView>,
    now: int,
)
    requires
        state.phase is Sleep,
        wait < state.expires_in,
    ensures
        ({
            let round = seq![
                PollEventView::Woke { elapsed: wait },
                PollEventView::Polled(PollReplyView::Pending),
            ];
            &&& polls_sent(poll_run(state, round + rest, now)) == 1 + polls_sent(
                poll_run(state, rest, now),
            )
            &&& saves_asked(poll_run(state, round + rest, now)) == saves_asked(
                poll_run(state, rest, now),
            )
            &&& poll_end(state, round + rest, now) == poll_end(state, rest, now)
        }),
{
    let woke = PollEventView::Woke { elapsed: wait };
    let pending = PollEventView::Polled(PollReplyView::Pending);
    let events = seq![woke, pending] + rest;
    let polling = poll_step(state, woke, now);
    let asleep = poll_step(polling, pending, now);
    assert(polling.phase is Poll);
    assert(asleep == state);
    let after_first = events.drop_first();
    assert(events[0] == woke);
    assert(after_first[0] == pending);
    assert(after_first.drop_first() =~= rest);
    let run = poll_run(state, events, now);
    let run_after_first = poll_run(polling, after_first, now);
    assert(run[0] == polling);
    assert(run.drop_first() =~= run_after_first);
    assert(run_after_first[0] == asleep);
    assert(run_after_first.drop_first() =~= poll_run(state, rest, now));
    assert(polls_sent(run) == 1 + polls_sent(run_after_first));
    assert(polls_sent(run_after_first) == polls_sent(poll_run(state, rest, now)));
    assert(saves_asked(run) == saves_asked(run_after_first));
    assert(saves_asked(run_after_first) == saves_asked(poll_run(state, rest, now)));
    assert(poll_end(state, events, now) == poll_end(polling, after_first, now));
    assert(poll_end(polling, after_first, now) == poll_end(state, rest, now));
}

/// Any number of rounds in which the host wakes up before the deadline and
/// the provider answers "pending" cost one poll each, ask for no save and
/// leave a sleeping flow as it was: whatever events follow them, the polls
/// of the whole run are one for each round and those of what follows, the
/// saves are those of what follows, and the flow ends where what follows
/// takes it.
pub proof fn lemma_pending_rounds(
    state: DevicePollView,
    waits: Seq<u64>,
    rest: Seq<PollEventView>,
    now: int,
)
    requires
        state.phase is Sleep,
        forall|i: int| 0 <= i < waits.len() ==> waits[i] < state.expires_in,
    ensures
        polls_sent(poll_run(state, pending_rounds(waits) + rest, now)) == waits.len() + polls_sent(
            poll_run(state, rest, now),
        ),
        saves_asked(poll_run(state, pending_rounds(waits) + rest, now)) == saves_asked(
            poll_run(state, rest, now),
        ),
        poll_end(state, pending_rounds(waits) + rest, now) == poll_end(state, rest, now),
    decreases waits.len(),
{
    if waits.len() == 0 {
        assert(pending_rounds(waits) + rest =~= rest);
    } else {
        let round = seq![
            PollEventView::Woke { elapsed: waits[0] },
            PollEventView::Polled(PollReplyView::Pending),
        ];
        let later = waits.drop_first();
        let tail = pending_rounds(later) + rest;
        assert(pending_rounds(waits) + rest =~= round + tail);
        assert forall|i: int| 0 <= i < later.len() implies later[i] < state.expires_in by {
            assert(later[i] == waits[i + 1]);
        }
        lemma_pending_round(state, waits[0], tail, now);
        lemma_pending_rounds(state, later, rest, now);
    }
}

/// A provider that answers "pending" to the first `waits.len()` polls and
/// grants the next one is polled exactly once more than it answered
/// "pending", whatever it grants. Where the expiry of the grant fits a
/// timestamp the flow asks for one save and ends logged in, with the granted
/// tokens issued at `now` to the validated identity; where it does not, the
/// flow asks for no save and ends with a decode failure. Each wake-up is
/// before the deadline.
pub proof fn lemma_pending_then_granted(
    start: DevicePollView,
    waits: Seq<u64>,
    last_wait: u64,
    grant: TokenGrantView,
    username: Seq<char>,
    now: int,
)
    requires
        start.phase is Sleep,
        forall|i: int| 0 <= i < waits.len() ==> waits[i] < start.expires_in,
        last_wait < start.expires_in,
    ensures
        ({
            let events = pending_rounds(waits) + seq![
                PollEventView::Woke { elapsed: last_wait },
                PollEventView::Polled(PollReplyView::Granted(grant)),
                PollEventView::Validated(Ok(username)),
                PollEventView::Saved(Ok(())),
            ];
            let run = poll_run(start, events, now);
            let end = poll_end(start, events, now);
            &&& polls_sent(run) == waits.len() + 1
            &&& issuable(grant, now) ==> saves_asked(run) == 1 && end.phase
                == PollPhaseView::Finished(Ok(issued(grant, username, now)))
            &&& !issuable(grant, now) ==> saves_asked(run) == 0 && end.phase
                == PollPhaseView::Finished(Err(AuthErrorView::Decode))
        }),
{
    let rest = seq![
        PollEventView::Woke { elapsed: last_wait },
        PollEventView::Polled(PollReplyView::Granted(grant)),
        PollEventView::Validated(Ok(username)),
        PollEventView::Saved(Ok(())),
    ];
    lemma_pending_rounds(start, waits, rest, now);
    reveal_with_fuel(poll_run, 5);
    reveal_with_fuel(poll_end, 5);
    reveal_with_fuel(polls_sent, 5);
    reveal_with_fuel(saves_asked, 5);
    let polling = poll_step(start, rest[0], now);
    let validating = poll_step(polling, rest[1], now);
    let third = poll_step(validating, rest[2], now);
    let finished = poll_step(third, rest[3], now);
    let rest1 = rest.drop_first();
    let rest2 = rest1.drop_first();
    let rest3 = rest2.drop_first();
    assert(rest1[0] == rest[1] && rest2[0] == rest[2] && rest3[0] == rest[3]);
    assert(rest3.drop_first().len() == 0);
    assert(poll_end(start, rest, now) == finished);
    assert(poll_run(start, rest, now) =~= seq![polling, validating, third, finished]);
    let run = seq![polling, validating, third, finished];
    assert(run.drop_first() =~= seq![validating, third, finished]);
    assert(run.drop_first().drop_first() =~= seq![third, finished]);
    assert(run.drop_first().drop_first().drop_first() =~= seq![finished]);
    assert(polls_sent(run) == 1);
    if issuable(grant, now) {
        assert(third.phase is Save);
        assert(saves_asked(run) == 1);
    } else {
        assert(third.phase is Finished);
        assert(saves_asked(run) == 0);
    }
}

/// Once a wake-up finds the deadline passed, the flow ends as expired and
/// no further poll is sent, whatever is reported to it afterwards: the polls
/// of the run are those of the pending rounds before, and the run never
/// asks for a save.
pub proof fn lemma_expired_flow_stops(
    start: DevicePollView,
    waits: Seq<u64>,
    late: u64,
    afterwards: Seq<PollEventView>,
    now: int,
)
    requires
        start.phase is Sleep,
        forall|i: int| 0 <= i < waits.len() ==> waits[i] < start.expires_in,
        late >= start.expires_in,
    ensures
        ({
            let events = pending_rounds(waits) + (seq![PollEventView::Woke { elapsed: late }]
                + afterwards);
            &&& polls_sent(poll_run(start, events, now)) == waits.len()
            &&& saves_asked(poll_run(start, events, now)) == 0
            &&& poll_end(start, events, now).phase == PollPhaseView::Finished(
                Err(AuthErrorView::FlowExpired),
            )
        }),
{
    let woke = PollEventView::Woke { elapsed: late };
    let rest = seq![woke] + afterwards;
    lemma_pending_rounds(start, waits, rest, now);
    let expired = poll_step(start, woke, now);
    assert(rest[0] == woke);
    assert(rest.drop_first() =~= afterwards);
    lemma_finished_flow_sends_nothing(expired, afterwards, now);
    let run = poll_run(start, rest, now);
    assert(run[0] == expired);
    assert(run.drop_first() =~= poll_run(expired, afterwards, now));
    assert(poll_end(start, rest, now) == poll_end(expired, afterwards, now));
}

} // verus!
