//! The steps of an analysis: at most three attempts to reach the service,
//! two seconds apart, then the answer stream.
//!
//! An `Analysis` is advanced by what happened: it says what is to be done
//! next, and the caller does it and reports back.

use crate::analysis::{
    lemma_initial_profile_lacks_model, prepare_request, request_of, validation_error,
    AnalysisError, AnalysisErrorView,
};
use crate::config::{lemma_position_of_id_unique, ConfigView};
use crate::profile::{text_of, Profile, ProfileConfigUpdateView, ProfileView};
use crate::sse::{SseParser, SseState};
use vstd::prelude::*;

verus! {

/// How many times a request is sent at most.
pub const MAX_ATTEMPTS: u8 = 3;

/// The seconds between a failed attempt and the next.
pub const RETRY_DELAY_SECONDS: u64 = 2;

/// A status that stands for success.
pub open spec fn is_success(status: u16) -> bool {
    200 <= status <= 299
}

/// What happened since the last step.
#[derive(Debug, PartialEq, Eq)]
pub enum AnalysisEvent {
    /// The request did not reach the service, or no answer came.
    TransportFailed(String),
    /// The service answered with this status.
    Responded(u16),
    /// The time between two attempts has passed.
    DelayElapsed,
    /// The body of an answer that is no success was read.
    ErrorBody(String),
    /// A chunk of the answer stream came in.
    Chunk(Vec<u8>),
    /// The answer stream broke off.
    ChunkFailed(String),
    /// The answer stream has ended.
    StreamEnded,
}

/// What an `AnalysisEvent` holds.
pub enum AnalysisEventView {
    TransportFailed(Seq<char>),
    Responded(u16),
    DelayElapsed,
    ErrorBody(Seq<char>),
    Chunk(Seq<u8>),
    ChunkFailed(Seq<char>),
    StreamEnded,
}

impl View for AnalysisEvent {
    type V = AnalysisEventView;

    open spec fn view(&self) -> AnalysisEventView {
        match self {
            AnalysisEvent::TransportFailed(m) => AnalysisEventView::TransportFailed(m@),
            AnalysisEvent::Responded(status) => AnalysisEventView::Responded(*status),
            AnalysisEvent::DelayElapsed => AnalysisEventView::DelayElapsed,
            AnalysisEvent::ErrorBody(body) => AnalysisEventView::ErrorBody(body@),
            AnalysisEvent::Chunk(bytes) => AnalysisEventView::Chunk(bytes@),
            AnalysisEvent::ChunkFailed(m) => AnalysisEventView::ChunkFailed(m@),
            AnalysisEvent::StreamEnded => AnalysisEventView::StreamEnded,
        }
    }
}

/// What is to be done next.
#[derive(Clone, Copy, Debug, PartialEq, Eq, Structural)]
pub enum AnalysisAction {
    /// Send the request, and report `TransportFailed` or `Responded`.
    Send,
    /// Wait this many seconds, and report `DelayElapsed`.
    Wait(u64),
    /// Read the body of the answer, and report `ErrorBody`: with the body,
    /// or with nothing where it cannot be read.
    ReadErrorBody,
    /// Read on in the answer stream, and report `Chunk`, `ChunkFailed` or
    /// `StreamEnded`.
    ReadChunk,
    /// Nothing: the analysis has ended.
    Stop,
}

/// What an analysis ended with.
pub open spec fn outcome_view(result: Result<String, AnalysisError>) -> Result<
    Seq<char>,
    AnalysisErrorView,
> {
    match result {
        Ok(text) => Ok(text@),
        Err(e) => Err(e@),
    }
}

/// Where an analysis stands. `attempt` counts the requests sent so far, the
/// one under way included.
#[derive(Debug)]
pub enum Analysis {
    /// A request is under way.
    Sending { attempt: u8 },
    /// The last attempt failed, and the next one is waited for.
    Pausing { attempt: u8, last_error: String },
    /// The service answered with a status that is no success.
    Failing { attempt: u8, status: u16 },
    /// The answer stream is read.
    Streaming { attempt: u8, parser: SseParser },
    /// The analysis has ended.
    Finished { attempt: u8, result: Result<String, AnalysisError> },
}

/// What an `Analysis` holds.
pub enum AnalysisView {
    Sending { attempt: nat },
    Pausing { attempt: nat, last_error: Seq<char> },
    Failing { attempt: nat, status: u16 },
    Streaming { attempt: nat, stream: SseState },
    Finished { attempt: nat, result: Result<Seq<char>, AnalysisErrorView> },
}

impl View for Analysis {
    type V = AnalysisView;

    open spec fn view(&self) -> AnalysisView {
        match self {
            Analysis::Sending { attempt } => AnalysisView::Sending { attempt: *attempt as nat },
            Analysis::Pausing { attempt, last_error } => AnalysisView::Pausing {
                attempt: *attempt as nat,
                last_error: last_error@,
            },
            Analysis::Failing { attempt, status } => AnalysisView::Failing {
                attempt: *attempt as nat,
                status: *status,
            },
            Analysis::Streaming { attempt, parser } => AnalysisView::Streaming {
                attempt: *attempt as nat,
                stream: parser@,
            },
            Analysis::Finished { attempt, result } => AnalysisView::Finished {
                attempt: *attempt as nat,
                result: outcome_view(*result),
            },
        }
    }
}

/// What a stream that has ended gives: its text, or `EmptyResponse` where it
/// holds none.
pub open spec fn stream_outcome(stream: SseState) -> Result<Seq<char>, AnalysisErrorView> {
    if stream.content.len() > 0 {
        Ok(stream.content)
    } else {
        Err(AnalysisErrorView::EmptyResponse)
    }
}

/// The stream after these chunks, each read as text on its own.
pub open spec fn fed_all(stream: SseState, chunks: Seq<Seq<u8>>) -> SseState
    decreases chunks.len(),
{
    if chunks.len() == 0 {
        stream
    } else {
        fed_all(stream.fed_bytes(chunks[0]), chunks.skip(1))
    }
}

/// The events of a stream that delivers these chunks and then ends.
pub open spec fn stream_events(chunks: Seq<Seq<u8>>) -> Seq<AnalysisEventView> {
    Seq::new(chunks.len(), |i: int| AnalysisEventView::Chunk(chunks[i])).push(
        AnalysisEventView::StreamEnded,
    )
}

impl AnalysisView {
    /// An analysis at its first attempt.
    pub open spec fn begin() -> AnalysisView {
        AnalysisView::Sending { attempt: 1 }
    }

    /// The requests sent so far.
    pub open spec fn attempts(self) -> nat {
        match self {
            AnalysisView::Sending { attempt } => attempt,
            AnalysisView::Pausing { attempt, .. } => attempt,
            AnalysisView::Failing { attempt, .. } => attempt,
            AnalysisView::Streaming { attempt, .. } => attempt,
            AnalysisView::Finished { attempt, .. } => attempt,
        }
    }

    /// At least one request was sent, and no more than three.
    pub open spec fn wf(self) -> bool {
        1 <= self.attempts() <= MAX_ATTEMPTS
    }

    /// What is to be done next.
    pub open spec fn action(self) -> AnalysisAction {
        match self {
            AnalysisView::Sending { .. } => AnalysisAction::Send,
            AnalysisView::Pausing { .. } => AnalysisAction::Wait(RETRY_DELAY_SECONDS),
            AnalysisView::Failing { .. } => AnalysisAction::ReadErrorBody,
            AnalysisView::Streaming { .. } => AnalysisAction::ReadChunk,
            AnalysisView::Finished { .. } => AnalysisAction::Stop,
        }
    }

    /// The analysis after an event. An event that does not answer what was
    /// to be done changes nothing.
    ///
    /// A failed attempt is followed by a pause and another attempt, the
    /// third by the end with `AllAttemptsFailed`. A status that is no
    /// success ends the analysis with `HttpStatus` once the body is read. A
    /// success starts the stream, and the stream's end ends the analysis:
    /// nothing is sent again after an answer.
    pub open spec fn advanced(self, event: AnalysisEventView) -> AnalysisView {
        match (self, event) {
            (
                AnalysisView::Sending { attempt },
                AnalysisEventView::TransportFailed(message),
            ) => if attempt < MAX_ATTEMPTS {
                AnalysisView::Pausing { attempt, last_error: message }
            } else {
                AnalysisView::Finished {
                    attempt,
                    result: Err(AnalysisErrorView::AllAttemptsFailed(message)),
                }
            },
            (AnalysisView::Sending { attempt }, AnalysisEventView::Responded(status)) => if is_success(
                status,
            ) {
                AnalysisView::Streaming { attempt, stream: SseState::start() }
            } else {
                AnalysisView::Failing { attempt, status }
            },
            (
                AnalysisView::Pausing { attempt, last_error },
                AnalysisEventView::DelayElapsed,
            ) => if attempt < MAX_ATTEMPTS {
                AnalysisView::Sending { attempt: attempt + 1 }
            } else {
                AnalysisView::Finished {
                    attempt,
                    result: Err(AnalysisErrorView::AllAttemptsFailed(last_error)),
                }
            },
            (AnalysisView::Failing { attempt, status }, AnalysisEventView::ErrorBody(body)) =>
                AnalysisView::Finished {
                    attempt,
                    result: Err(AnalysisErrorView::HttpStatus(status, body)),
                },
            (AnalysisView::Streaming { attempt, stream }, AnalysisEventView::Chunk(bytes)) =>
                AnalysisView::Streaming { attempt, stream: stream.fed_bytes(bytes) },
            (
                AnalysisView::Streaming { attempt, stream },
                AnalysisEventView::ChunkFailed(message),
            ) => AnalysisView::Finished {
                attempt,
                result: Err(AnalysisErrorView::TransportFailure(message)),
            },
            (AnalysisView::Streaming { attempt, stream }, AnalysisEventView::StreamEnded) =>
                AnalysisView::Finished { attempt, result: stream_outcome(stream) },
            _ => self,
        }
    }

    /// The analysis after these events, in their order.
    pub open spec fn run(self, events: Seq<AnalysisEventView>) -> AnalysisView
        decreases events.len(),
    {
        if events.len() == 0 {
            self
        } else {
            self.advanced(events[0]).run(events.skip(1))
        }
    }
}

/// No event takes back a request that was sent, and none lets a fourth be
/// sent.
pub proof fn lemma_advanced_wf(state: AnalysisView, event: AnalysisEventView)
    requires
        state.wf(),
    ensures
        state.advanced(event).wf(),
        state.attempts() <= state.advanced(event).attempts() <= state.attempts() + 1,
        state.advanced(event).attempts() == state.attempts() + 1 ==> state is Pausing && event
            == AnalysisEventView::DelayElapsed,
{
}

/// Whatever happens, an analysis sends its request at least once and at
/// most three times.
pub proof fn lemma_attempts_bounded(events: Seq<AnalysisEventView>)
    ensures
        1 <= AnalysisView::begin().run(events).attempts() <= MAX_ATTEMPTS,
{
    lemma_run_wf(AnalysisView::begin(), events);
}

/// A run of events keeps the bounds on the requests sent.
pub proof fn lemma_run_wf(state: AnalysisView, events: Seq<AnalysisEventView>)
    requires
        state.wf(),
    ensures
        state.run(events).wf(),
        state.attempts() <= state.run(events).attempts(),
    decreases events.len(),
{
    if events.len() > 0 {
        lemma_advanced_wf(state, events[0]);
        lemma_run_wf(state.advanced(events[0]), events.skip(1));
    }
}

/// An analysis that has ended stays as it is.
pub proof fn lemma_finished_stays(state: AnalysisView, events: Seq<AnalysisEventView>)
    requires
        state is Finished,
    ensures
        state.run(events) == state,
    decreases events.len(),
{
    if events.len() > 0 {
        lemma_finished_stays(state, events.skip(1));
    }
}

/// A run of events followed by another run is the run of all of them.
pub proof fn lemma_run_concat(
    state: AnalysisView,
    first: Seq<AnalysisEventView>,
    second: Seq<AnalysisEventView>,
)
    ensures
        state.run(first + second) == state.run(first).run(second),
    decreases first.len(),
{
    if first.len() > 0 {
        assert((first + second).skip(1) =~= first.skip(1) + second);
        lemma_run_concat(state.advanced(first[0]), first.skip(1), second);
    }
}

/// The events of a transport that fails at each of the first `failures`
/// attempts, with these messages, and is waited for after each.
pub open spec fn failed_attempts(messages: Seq<Seq<char>>) -> Seq<AnalysisEventView>
    decreases messages.len(),
{
    if messages.len() == 0 {
        Seq::empty()
    } else {
        seq![
            AnalysisEventView::TransportFailed(messages[0]),
            AnalysisEventView::DelayElapsed,
        ] + failed_attempts(messages.skip(1))
    }
}

/// After fewer than three failed attempts, each followed by its pause, the
/// next attempt is under way.
pub proof fn lemma_failed_attempts(attempt: nat, messages: Seq<Seq<char>>)
    requires
        1 <= attempt,
        attempt + messages.len() <= MAX_ATTEMPTS,
    ensures
        (AnalysisView::Sending { attempt }).run(failed_attempts(messages)) == (
        AnalysisView::Sending { attempt: attempt + messages.len() }),
    decreases messages.len(),
{
    let state = AnalysisView::Sending { attempt };
    if messages.len() > 0 {
        let events = failed_attempts(messages);
        let rest = failed_attempts(messages.skip(1));
        let paused = state.advanced(events[0]);
        assert(events.skip(1).skip(1) =~= rest);
        assert(paused.run(events.skip(1)) == paused.advanced(events.skip(1)[0]).run(
            events.skip(1).skip(1),
        ));
        lemma_failed_attempts(attempt + 1, messages.skip(1));
    }
}

/// A stream that delivers chunks and then ends gives the text of the
/// chunks, fed in their order.
pub proof fn lemma_stream_run(attempt: nat, stream: SseState, chunks: Seq<Seq<u8>>)
    ensures
        (AnalysisView::Streaming { attempt, stream }).run(stream_events(chunks)) == (
        AnalysisView::Finished { attempt, result: stream_outcome(fed_all(stream, chunks)) }),
    decreases chunks.len(),
{
    let state = AnalysisView::Streaming { attempt, stream };
    let events = stream_events(chunks);
    if chunks.len() == 0 {
        assert(state.advanced(events[0]).run(events.skip(1)) == state.advanced(events[0]));
    } else {
        assert(events.skip(1) =~= stream_events(chunks.skip(1)));
        lemma_stream_run(attempt, stream.fed_bytes(chunks[0]), chunks.skip(1));
    }
}

/// A transport that fails at every attempt: the request is sent exactly
/// three times, and the analysis ends with `AllAttemptsFailed` and what the
/// last attempt failed with.
pub proof fn lemma_always_failing(first: Seq<char>, second: Seq<char>, third: Seq<char>)
    ensures
        AnalysisView::begin().run(
            failed_attempts(seq![first, second]).push(AnalysisEventView::TransportFailed(third)),
        ) == (AnalysisView::Finished {
            attempt: 3,
            result: Err(AnalysisErrorView::AllAttemptsFailed(third)),
        }),
{
    let failures = failed_attempts(seq![first, second]);
    let last = seq![AnalysisEventView::TransportFailed(third)];
    lemma_failed_attempts(1, seq![first, second]);
    assert(failures.push(AnalysisEventView::TransportFailed(third)) =~= failures + last);
    lemma_run_concat(AnalysisView::begin(), failures, last);
    let state = AnalysisView::Sending { attempt: 3 };
    assert(state.run(last) == state.advanced(last[0]).run(last.skip(1)));
}

/// A transport that fails fewer than three times and then succeeds: the
/// request is sent once more than it failed, and the analysis ends with the
/// text of the stream.
pub proof fn lemma_failures_then_success(
    messages: Seq<Seq<char>>,
    status: u16,
    chunks: Seq<Seq<u8>>,
)
    requires
        messages.len() < MAX_ATTEMPTS,
        is_success(status),
    ensures
        AnalysisView::begin().run(
            failed_attempts(messages) + seq![AnalysisEventView::Responded(status)] + stream_events(
                chunks,
            ),
        ) == (AnalysisView::Finished {
            attempt: messages.len() + 1,
            result: stream_outcome(fed_all(SseState::start(), chunks)),
        }),
{
    let failures = failed_attempts(messages);
    let answer = seq![AnalysisEventView::Responded(status)];
    let stream = stream_events(chunks);
    lemma_failed_attempts(1, messages);
    lemma_run_concat(AnalysisView::begin(), failures + answer, stream);
    lemma_run_concat(AnalysisView::begin(), failures, answer);
    let state = AnalysisView::Sending { attempt: 1 + messages.len() };
    assert(state.run(answer) == state.advanced(answer[0]).run(answer.skip(1)));
    lemma_stream_run(1 + messages.len(), SseState::start(), chunks);
}

/// A status that is no success ends the analysis once the body is read,
/// with no further attempt.
pub proof fn lemma_status_ends(attempt: nat, status: u16, body: Seq<char>)
    requires
        !is_success(status),
    ensures
        (AnalysisView::Sending { attempt }).run(
            seq![AnalysisEventView::Responded(status), AnalysisEventView::ErrorBody(body)],
        ) == (AnalysisView::Finished {
            attempt,
            result: Err(AnalysisErrorView::HttpStatus(status, body)),
        }),
{
    let state = AnalysisView::Sending { attempt };
    let events = seq![AnalysisEventView::Responded(status), AnalysisEventView::ErrorBody(body)];
    let failing = state.advanced(events[0]);
    assert(failing.run(events.skip(1)) == failing.advanced(events.skip(1)[0]).run(
        events.skip(1).skip(1),
    ));
}

impl Analysis {
    /// An analysis at its first attempt.
    pub fn begin() -> (analysis: Analysis)
        ensures
            analysis@ == AnalysisView::begin(),
    {
        Analysis::Sending { attempt: 1 }
    }

    /// The requests sent so far.
    pub fn attempts(&self) -> (attempts: u8)
        ensures
            attempts == self@.attempts(),
    {
        match self {
            Analysis::Sending { attempt } => *attempt,
            Analysis::Pausing { attempt, .. } => *attempt,
            Analysis::Failing { attempt, .. } => *attempt,
            Analysis::Streaming { attempt, .. } => *attempt,
            Analysis::Finished { attempt, .. } => *attempt,
        }
    }

    /// What is to be done next.
    pub fn action(&self) -> (action: AnalysisAction)
        ensures
            action == self@.action(),
    {
        match self {
            Analysis::Sending { .. } => AnalysisAction::Send,
            Analysis::Pausing { .. } => AnalysisAction::Wait(RETRY_DELAY_SECONDS),
            Analysis::Failing { .. } => AnalysisAction::ReadErrorBody,
            Analysis::Streaming { .. } => AnalysisAction::ReadChunk,
            Analysis::Finished { .. } => AnalysisAction::Stop,
        }
    }

    /// The analysis after an event.
    pub fn advance(self, event: AnalysisEvent) -> (next: Analysis)
        ensures
            next@ == self@.advanced(event@),
    {
        match self {
            Analysis::Sending { attempt } => match event {
                AnalysisEvent::TransportFailed(message) => if attempt < MAX_ATTEMPTS {
                    Analysis::Pausing { attempt, last_error: message }
                } else {
                    Analysis::Finished {
                        attempt,
                        result: Err(AnalysisError::AllAttemptsFailed(message)),
                    }
                },
                AnalysisEvent::Responded(status) => if 200 <= status && status <= 299 {
                    Analysis::Streaming { attempt, parser: SseParser::new() }
                } else {
                    Analysis::Failing { attempt, status }
                },
                _ => Analysis::Sending { attempt },
            },
            Analysis::Pausing { attempt, last_error } => match event {
                AnalysisEvent::DelayElapsed => if attempt < MAX_ATTEMPTS {
                    Analysis::Sending { attempt: attempt + 1 }
                } else {
                    Analysis::Finished {
                        attempt,
                        result: Err(AnalysisError::AllAttemptsFailed(last_error)),
                    }
                },
                _ => Analysis::Pausing { attempt, last_error },
            },
            Analysis::Failing { attempt, status } => match event {
                AnalysisEvent::ErrorBody(body) => Analysis::Finished {
                    attempt,
                    result: Err(AnalysisError::HttpStatus(status, body)),
                },
                _ => Analysis::Failing { attempt, status },
            },
            Analysis::Streaming { attempt, parser } => match event {
                AnalysisEvent::Chunk(bytes) => {
                    let mut parser = parser;
                    parser.feed(bytes.as_slice());
                    Analysis::Streaming { attempt, parser }
                },
                AnalysisEvent::ChunkFailed(message) => Analysis::Finished {
                    attempt,
                    result: Err(AnalysisError::TransportFailure(message)),
                },
                AnalysisEvent::StreamEnded => Analysis::Finished {
                    attempt,
                    result: finish_stream(&parser),
                },
                _ => Analysis::Streaming { attempt, parser },
            },
            Analysis::Finished { attempt, result } => Analysis::Finished { attempt, result },
        }
    }

    /// What the analysis ended with; `None` while it has not ended.
    pub fn into_result(self) -> (result: Option<Result<String, AnalysisError>>)
        ensures
            match result {
                Some(outcome) => self@ is Finished && self@->Finished_result == outcome_view(
                    outcome,
                ),
                None => !(self@ is Finished),
            },
    {
        match self {
            Analysis::Finished { result, .. } => Some(result),
            _ => None,
        }
    }
}

/// What a list of events holds.
pub open spec fn event_views(events: Seq<AnalysisEvent>) -> Seq<AnalysisEventView> {
    events.map_values(|e: AnalysisEvent| e@)
}

/// A run of events followed by one more event.
pub proof fn lemma_run_push(
    state: AnalysisView,
    events: Seq<AnalysisEventView>,
    event: AnalysisEventView,
)
    ensures
        state.run(events.push(event)) == state.run(events).advanced(event),
{
    let last = seq![event];
    assert(events.push(event) =~= events + last);
    lemma_run_concat(state, events, last);
    let reached = state.run(events);
    assert(reached.run(last) == reached.advanced(last[0]).run(last.skip(1)));
}

/// What came of an analysis.
#[derive(Debug)]
pub struct AnalysisOutcome {
    /// The requests that were sent.
    pub attempts: u8,
    /// What the analysis ended with; `None` where it has not ended.
    pub result: Option<Result<String, AnalysisError>>,
}

/// What an `AnalysisOutcome` holds.
pub struct AnalysisOutcomeView {
    pub attempts: nat,
    pub result: Option<Result<Seq<char>, AnalysisErrorView>>,
}

impl View for AnalysisOutcome {
    type V = AnalysisOutcomeView;

    open spec fn view(&self) -> AnalysisOutcomeView {
        AnalysisOutcomeView {
            attempts: self.attempts as nat,
            result: match self.result {
                Some(result) => Some(outcome_view(result)),
                None => None,
            },
        }
    }
}

/// What comes of the analysis of an image under a profile when the
/// transport does what the events tell. A profile that lacks a key, an
/// endpoint or a model ends the analysis before anything is sent.
pub open spec fn analysis_outcome(
    profile: ProfileView,
    image: Seq<char>,
    given: Option<Seq<char>>,
    transport: Seq<AnalysisEventView>,
) -> AnalysisOutcomeView {
    match request_of(profile, image, given) {
        Err(e) => AnalysisOutcomeView { attempts: 0, result: Some(Err(e)) },
        Ok(_) => {
            let reached = AnalysisView::begin().run(transport);
            AnalysisOutcomeView {
                attempts: reached.attempts(),
                result: match reached {
                    AnalysisView::Finished { result, .. } => Some(result),
                    _ => None,
                },
            }
        },
    }
}

/// Whatever the transport does, the request is sent at most three times;
/// and under a profile that lacks a key, an endpoint or a model it is not
/// sent at all, and the analysis ends with what is lacking.
pub proof fn lemma_outcome_attempts(
    profile: ProfileView,
    image: Seq<char>,
    given: Option<Seq<char>>,
    transport: Seq<AnalysisEventView>,
)
    ensures
        analysis_outcome(profile, image, given, transport).attempts <= MAX_ATTEMPTS,
        match validation_error(profile) {
            Some(e) => analysis_outcome(profile, image, given, transport) == (
            AnalysisOutcomeView { attempts: 0, result: Some(Err(e)) }),
            None => analysis_outcome(profile, image, given, transport).attempts >= 1,
        },
{
    lemma_attempts_bounded(transport);
}

/// From a fresh configuration to an answer: an analysis under the profile
/// of a fresh configuration ends with `MissingModel` before anything is
/// sent; once the active profile has been given a model and nothing else,
/// an analysis against a transport that answers with a success and a stream
/// sends the request once and gives the text of the stream.
pub proof fn lemma_fresh_configuration_needs_model(
    id: Seq<char>,
    model: Seq<char>,
    image: Seq<char>,
    given: Option<Seq<char>>,
    transport: Seq<AnalysisEventView>,
    status: u16,
    chunks: Seq<Seq<u8>>,
)
    requires
        model.len() > 0,
        is_success(status),
    ensures
        analysis_outcome(ProfileView::initial(id), image, given, transport) == (
        AnalysisOutcomeView {
            attempts: 0,
            result: Some(Err(AnalysisErrorView::MissingModel)),
        }),
        ({
            let update = ProfileConfigUpdateView { model: Some(model), ..ProfileConfigUpdateView::none() };
            match ConfigView::initial(id).profile_updated(update) {
                Ok(after) => {
                    &&& after.profiles.len() == 1
                    &&& after.active_index() == 0
                    &&& after.profiles[0] == ProfileView::initial(id).updated(update)
                    &&& analysis_outcome(
                        after.profiles[0],
                        image,
                        given,
                        seq![AnalysisEventView::Responded(status)] + stream_events(chunks),
                    ) == (AnalysisOutcomeView {
                        attempts: 1,
                        result: Some(stream_outcome(fed_all(SseState::start(), chunks))),
                    })
                },
                Err(_) => false,
            }
        }),
{
    let update = ProfileConfigUpdateView { model: Some(model), ..ProfileConfigUpdateView::none() };
    lemma_initial_profile_lacks_model(id, update);
    let config = ConfigView::initial(id);
    lemma_position_of_id_unique(config.profiles, id, 0);
    let after = config.profile_updated(update)->Ok_0;
    lemma_position_of_id_unique(after.profiles, id, 0);
    lemma_failures_then_success(Seq::empty(), status, chunks);
}

/// The analysis of an image under a profile against a transport whose
/// doings are given as events, in their order: for a transport that is
/// played back, or made up.
pub fn analyze(profile: &Profile, image: &str, given: Option<String>, transport: Vec<
    AnalysisEvent,
>) -> (outcome: AnalysisOutcome)
    ensures
        outcome@ == analysis_outcome(profile@, image@, text_of(given), event_views(transport@)),
{
    match prepare_request(profile, image, given) {
        Ok(_) => {},
        Err(e) => {
            return AnalysisOutcome { attempts: 0, result: Some(Err(e)) };
        },
    }
    let ghost all = event_views(transport@);
    let mut analysis = Analysis::begin();
    for event in it: transport
        invariant
            all == event_views(it.seq()),
            analysis@ == AnalysisView::begin().run(all.take(it.index() as int)),
    {
        proof {
            lemma_run_push(
                AnalysisView::begin(),
                all.take(it.index() as int),
                all[it.index() as int],
            );
            assert(all.take(it.index() + 1) =~= all.take(it.index() as int).push(
                all[it.index() as int],
            ));
        }
        analysis = analysis.advance(event);
    }
    proof {
        assert(all.take(all.len() as int) =~= all);
    }
    let attempts = analysis.attempts();
    AnalysisOutcome { attempts, result: analysis.into_result() }
}

/// What a stream that has ended gives: its text, or `EmptyResponse` where
/// it holds none.
pub fn finish_stream(parser: &SseParser) -> (result: Result<String, AnalysisError>)
    ensures
        outcome_view(result) == stream_outcome(parser@),
{
    let text = parser.content();
    if text.as_str().is_empty() {
        Err(AnalysisError::EmptyResponse)
    } else {
        Ok(text)
    }
}

} // verus!
