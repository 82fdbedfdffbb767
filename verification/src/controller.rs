//! The capture-lifecycle controller: a state machine that takes the gateway's
//! requests one at a time, supervises the recorder, drives the pipeline from
//! the recording to an intent, and answers every stop request exactly once.
//!
//! The controller decides and never acts. Each decision is an [`Action`] for
//! the caller to perform; the caller reports how it went as an [`Outcome`],
//! and gets the next action back.

use crate::api::{Answer, AnswerView, Failure, MainSignal, Request};
use crate::intent::{
    best_index, lemma_best_index_exists, match_intent, vocabulary_scores, Vocabulary,
};
use crate::text_match::Score;
use std::collections::VecDeque;
use vstd::prelude::*;

verus! {

/// One active recording: the handle of the recorder process, and when it was
/// started. The controller reads neither; it hands both back when the
/// recorder is to be stopped.
#[derive(Clone, Copy, Debug, PartialEq, Eq, Structural)]
pub struct CaptureSession {
    pub handle: u64,
    pub started_at: u64,
}

/// Where the controller stands as its callers see it.
#[derive(Clone, Copy, Debug, PartialEq, Eq, Structural)]
pub enum Phase {
    /// No recording, no stop request in progress.
    Idle,
    /// A recording is running.
    Recording,
    /// A stop request occupies the controller until its answer is out.
    Processing,
}

/// Where the controller stands, step by step.
#[derive(Clone, Copy, Debug, PartialEq, Eq, Structural)]
pub enum State {
    /// Nothing is recorded and nothing is asked of the caller.
    Idle,
    /// The caller was asked to start the recorder.
    Starting,
    /// The recorder runs.
    Recording(CaptureSession),
    /// The caller was asked to terminate the recorder.
    Stopping { session: CaptureSession, token: u64 },
    /// The caller was asked to wait until the recorder has exited.
    Reaping { session: CaptureSession, token: u64 },
    /// The caller was asked to repair the recording.
    Normalizing { token: u64 },
    /// The caller was asked to transcribe the repaired recording.
    Transcribing { token: u64 },
}

/// What the controller asks of its caller.
#[derive(Debug, PartialEq, Eq)]
pub enum Action {
    /// Nothing to do until the next request or outcome comes.
    Wait,
    /// Start the recorder and report `Started` or `StartFailed`.
    StartRecorder,
    /// Ask the recorder to terminate and report `Terminated` or
    /// `TerminateFailed`.
    TerminateRecorder(CaptureSession),
    /// Wait until the recorder process has exited and report `Reaped`.
    ReapRecorder(CaptureSession),
    /// Repair the recording into the canonical waveform and report
    /// `Normalized`.
    Normalize,
    /// Transcribe the repaired recording and report `Transcribed` or
    /// `TranscribeFailed`.
    Transcribe,
    /// Deliver `answer` to the request that holds `token`. With
    /// `low_confidence` the intent scored below the threshold, which is worth
    /// a warning and nothing more.
    Reply { token: u64, answer: Answer, low_confidence: bool },
}

/// An action with its label as a sequence of characters.
pub enum ActionView {
    Wait,
    StartRecorder,
    TerminateRecorder(CaptureSession),
    ReapRecorder(CaptureSession),
    Normalize,
    Transcribe,
    Reply { token: u64, answer: AnswerView, low_confidence: bool },
}

impl View for Action {
    type V = ActionView;

    open spec fn view(&self) -> ActionView {
        match self {
            Action::Wait => ActionView::Wait,
            Action::StartRecorder => ActionView::StartRecorder,
            Action::TerminateRecorder(session) => ActionView::TerminateRecorder(*session),
            Action::ReapRecorder(session) => ActionView::ReapRecorder(*session),
            Action::Normalize => ActionView::Normalize,
            Action::Transcribe => ActionView::Transcribe,
            Action::Reply { token, answer, low_confidence } => ActionView::Reply {
                token: *token,
                answer: answer@,
                low_confidence: *low_confidence,
            },
        }
    }
}

/// How the work that an action asked for went.
#[derive(Debug, PartialEq, Eq)]
pub enum Outcome {
    /// The recorder runs, under the given session.
    Started(CaptureSession),
    /// The recorder could not be started.
    StartFailed,
    /// The recorder took the request to terminate.
    Terminated,
    /// The request to terminate failed. The controller goes on with whatever
    /// was captured.
    TerminateFailed,
    /// The recorder process has exited and left nothing behind.
    Reaped,
    /// The repair tool has run: whether it reported success, and whether its
    /// output can be read.
    Normalized { tool_succeeded: bool, output_readable: bool },
    /// The recogniser's text. An empty text is a result like any other.
    Transcribed(String),
    /// The recogniser failed.
    TranscribeFailed,
}

/// An outcome with its text as a sequence of characters.
pub enum OutcomeView {
    Started(CaptureSession),
    StartFailed,
    Terminated,
    TerminateFailed,
    Reaped,
    Normalized { tool_succeeded: bool, output_readable: bool },
    Transcribed(Seq<char>),
    TranscribeFailed,
}

impl View for Outcome {
    type V = OutcomeView;

    open spec fn view(&self) -> OutcomeView {
        match self {
            Outcome::Started(session) => OutcomeView::Started(*session),
            Outcome::StartFailed => OutcomeView::StartFailed,
            Outcome::Terminated => OutcomeView::Terminated,
            Outcome::TerminateFailed => OutcomeView::TerminateFailed,
            Outcome::Reaped => OutcomeView::Reaped,
            Outcome::Normalized { tool_succeeded, output_readable } => OutcomeView::Normalized {
                tool_succeeded: *tool_succeeded,
                output_readable: *output_readable,
            },
            Outcome::Transcribed(text) => OutcomeView::Transcribed(text@),
            Outcome::TranscribeFailed => OutcomeView::TranscribeFailed,
        }
    }
}

/// Whether the controller waits for an outcome. While it does, requests
/// queue and none is taken up.
pub open spec fn is_busy(state: State) -> bool {
    !(state is Idle || state is Recording)
}

/// The phase that a state belongs to. While the recorder is being started
/// there is no session yet, so the phase is still `Idle`.
pub open spec fn phase_of(state: State) -> Phase {
    match state {
        State::Idle | State::Starting => Phase::Idle,
        State::Recording(_) => Phase::Recording,
        _ => Phase::Processing,
    }
}

/// The active session of a state: there is one while recording and at no
/// other time.
pub open spec fn session_of(state: State) -> Option<CaptureSession> {
    match state {
        State::Recording(session) => Some(session),
        _ => None,
    }
}

/// The token of the stop request that a state works on, if it works on one.
pub open spec fn token_of(state: State) -> Option<u64> {
    match state {
        State::Stopping { token, .. } => Some(token),
        State::Reaping { token, .. } => Some(token),
        State::Normalizing { token } => Some(token),
        State::Transcribing { token } => Some(token),
        _ => None,
    }
}

/// The reply that reports a failure.
pub open spec fn error_reply(token: u64, failure: Failure) -> ActionView {
    ActionView::Reply { token, answer: AnswerView::Error(failure), low_confidence: false }
}

/// The reply to a transcript: the best label of the vocabulary, marked as of
/// low confidence when its score is below the threshold.
pub open spec fn intent_reply(
    token: u64,
    transcript: Seq<char>,
    labels: Seq<Seq<char>>,
    threshold: u32,
) -> ActionView {
    let scores = vocabulary_scores(transcript, labels);
    let index = best_index(scores);
    ActionView::Reply {
        token,
        answer: AnswerView::Intent(labels[index]),
        low_confidence: scores[index] < threshold,
    }
}

/// What a request leads to when it is taken up in `state`: the next state and
/// the action to perform. Requests are taken up in `Idle` and `Recording`
/// only; in any other state the request changes nothing.
pub open spec fn decide(state: State, request: Request) -> (State, ActionView) {
    match (state, request.signal) {
        (State::Idle, MainSignal::StartMic) => (State::Starting, ActionView::StartRecorder),
        (State::Idle, MainSignal::StopMic) => (
            State::Idle,
            error_reply(request.token, Failure::NoActiveSession),
        ),
        (State::Recording(session), MainSignal::StartMic) => (
            State::Recording(session),
            ActionView::Wait,
        ),
        (State::Recording(session), MainSignal::StopMic) => (
            State::Stopping { session, token: request.token },
            ActionView::TerminateRecorder(session),
        ),
        _ => (state, ActionView::Wait),
    }
}

/// What an outcome leads to in `state`: the next state and the action to
/// perform. An outcome that the state does not wait for changes nothing.
pub open spec fn advance(
    state: State,
    outcome: OutcomeView,
    labels: Seq<Seq<char>>,
    threshold: u32,
) -> (State, ActionView) {
    match (state, outcome) {
        (State::Starting, OutcomeView::Started(session)) => (
            State::Recording(session),
            ActionView::Wait,
        ),
        (State::Starting, OutcomeView::StartFailed) => (State::Idle, ActionView::Wait),
        (State::Stopping { session, token }, OutcomeView::Terminated) => (
            State::Reaping { session, token },
            ActionView::ReapRecorder(session),
        ),
        (State::Stopping { session, token }, OutcomeView::TerminateFailed) => (
            State::Reaping { session, token },
            ActionView::ReapRecorder(session),
        ),
        (State::Reaping { session, token }, OutcomeView::Reaped) => (
            State::Normalizing { token },
            ActionView::Normalize,
        ),
        (
            State::Normalizing { token },
            OutcomeView::Normalized { tool_succeeded, output_readable },
        ) => if tool_succeeded && output_readable {
            (State::Transcribing { token }, ActionView::Transcribe)
        } else {
            (State::Idle, error_reply(token, Failure::Normalize))
        },
        (State::Transcribing { token }, OutcomeView::Transcribed(text)) => (
            State::Idle,
            intent_reply(token, text, labels, threshold),
        ),
        (State::Transcribing { token }, OutcomeView::TranscribeFailed) => (
            State::Idle,
            error_reply(token, Failure::Transcribe),
        ),
        _ => (state, ActionView::Wait),
    }
}

/// The controller as its contracts see it.
pub struct ControllerView {
    /// Where the controller stands.
    pub state: State,
    /// The requests that were submitted and not taken up yet, oldest first.
    pub pending: Seq<Request>,
    /// The labels of the vocabulary, in order.
    pub labels: Seq<Seq<char>>,
    /// The bit pattern of the score below which an intent is of low
    /// confidence.
    pub threshold: u32,
}

impl ControllerView {
    /// A controller at rest: idle, with no request pending.
    pub open spec fn initial(labels: Seq<Seq<char>>, threshold: u32) -> ControllerView {
        ControllerView { state: State::Idle, pending: Seq::empty(), labels, threshold }
    }

    /// The controller after `request` joined the queue.
    pub open spec fn submit(self, request: Request) -> ControllerView {
        ControllerView { pending: self.pending.push(request), ..self }
    }

    /// The controller after it was asked for its next action, and that
    /// action. A busy controller takes up nothing; a free one takes up its
    /// oldest request.
    pub open spec fn poll(self) -> (ControllerView, ActionView) {
        if is_busy(self.state) || self.pending.len() == 0 {
            (self, ActionView::Wait)
        } else {
            let (state, action) = decide(self.state, self.pending[0]);
            (
                ControllerView {
                    state,
                    pending: self.pending.subrange(1, self.pending.len() as int),
                    ..self
                },
                action,
            )
        }
    }

    /// The controller after `outcome` was reported, and its next action.
    pub open spec fn complete(self, outcome: OutcomeView) -> (ControllerView, ActionView) {
        let (state, action) = advance(self.state, outcome, self.labels, self.threshold);
        (ControllerView { state, ..self }, action)
    }
}

/// The capture-lifecycle controller. It owns the one optional session, the
/// queue of requests and the vocabulary.
pub struct Controller {
    vocabulary: Vocabulary,
    threshold: Score,
    state: State,
    pending: VecDeque<Request>,
}

impl View for Controller {
    type V = ControllerView;

    closed spec fn view(&self) -> ControllerView {
        ControllerView {
            state: self.state,
            pending: self.pending@,
            labels: self.vocabulary@,
            threshold: self.threshold@,
        }
    }
}

impl Controller {
    /// An idle controller for the given vocabulary and confidence threshold.
    pub fn new(vocabulary: Vocabulary, threshold: Score) -> (controller: Controller)
        ensures
            controller@ == ControllerView::initial(vocabulary@, threshold@),
    {
        Controller { vocabulary, threshold, state: State::Idle, pending: VecDeque::new() }
    }

    /// Puts `request` at the end of the queue. Nothing is decided yet.
    pub fn submit(&mut self, request: Request)
        ensures
            final(self)@ == old(self)@.submit(request),
    {
        self.pending.push_back(request);
    }

    /// The next action. While the controller waits for an outcome, or when
    /// no request is pending, there is none, and nothing changes. Otherwise
    /// the oldest request is taken up and decided.
    pub fn poll(&mut self) -> (action: Action)
        ensures
            final(self)@ == old(self)@.poll().0,
            action@ == old(self)@.poll().1,
    {
        if self.is_busy() {
            return Action::Wait;
        }
        let request = match self.pending.pop_front() {
            Some(request) => request,
            None => {
                return Action::Wait;
            },
        };
        match (self.state, request.signal) {
            (State::Idle, MainSignal::StartMic) => {
                self.state = State::Starting;
                Action::StartRecorder
            },
            (State::Idle, MainSignal::StopMic) => Action::Reply {
                token: request.token,
                answer: Answer::Error(Failure::NoActiveSession),
                low_confidence: false,
            },
            (State::Recording(_), MainSignal::StartMic) => Action::Wait,
            (State::Recording(session), MainSignal::StopMic) => {
                self.state = State::Stopping { session, token: request.token };
                Action::TerminateRecorder(session)
            },
            _ => Action::Wait,
        }
    }

    /// Takes the outcome of the work that the last action asked for, and
    /// gives the next action. An outcome that the controller does not wait
    /// for is ignored.
    pub fn complete(&mut self, outcome: Outcome) -> (action: Action)
        ensures
            final(self)@ == old(self)@.complete(outcome@).0,
            action@ == old(self)@.complete(outcome@).1,
    {
        match (self.state, outcome) {
            (State::Starting, Outcome::Started(session)) => {
                self.state = State::Recording(session);
                Action::Wait
            },
            (State::Starting, Outcome::StartFailed) => {
                self.state = State::Idle;
                Action::Wait
            },
            (State::Stopping { session, token }, Outcome::Terminated) => {
                self.state = State::Reaping { session, token };
                Action::ReapRecorder(session)
            },
            (State::Stopping { session, token }, Outcome::TerminateFailed) => {
                self.state = State::Reaping { session, token };
                Action::ReapRecorder(session)
            },
            (State::Reaping { session, token }, Outcome::Reaped) => {
                self.state = State::Normalizing { token };
                Action::Normalize
            },
            (
                State::Normalizing { token },
                Outcome::Normalized { tool_succeeded, output_readable },
            ) => {
                if tool_succeeded && output_readable {
                    self.state = State::Transcribing { token };
                    Action::Transcribe
                } else {
                    self.state = State::Idle;
                    Action::Reply {
                        token,
                        answer: Answer::Error(Failure::Normalize),
                        low_confidence: false,
                    }
                }
            },
            (State::Transcribing { token }, Outcome::Transcribed(text)) => {
                let result = match_intent(text.as_str(), &self.vocabulary);
                let low_confidence = result.is_low_confidence(self.threshold);
                self.state = State::Idle;
                Action::Reply { token, answer: Answer::Intent(result.label), low_confidence }
            },
            (State::Transcribing { token }, Outcome::TranscribeFailed) => {
                self.state = State::Idle;
                Action::Reply {
                    token,
                    answer: Answer::Error(Failure::Transcribe),
                    low_confidence: false,
                }
            },
            _ => Action::Wait,
        }
    }

    /// Whether the controller waits for an outcome.
    pub fn is_busy(&self) -> (busy: bool)
        ensures
            busy == is_busy(self@.state),
    {
        match self.state {
            State::Idle => false,
            State::Recording(_) => false,
            _ => true,
        }
    }

    /// The state of the controller.
    pub fn state(&self) -> (state: State)
        ensures
            state == self@.state,
    {
        self.state
    }

    /// The phase of the controller.
    pub fn phase(&self) -> (phase: Phase)
        ensures
            phase == phase_of(self@.state),
    {
        match self.state {
            State::Idle => Phase::Idle,
            State::Starting => Phase::Idle,
            State::Recording(_) => Phase::Recording,
            _ => Phase::Processing,
        }
    }

    /// The active session, if a recording is running.
    pub fn session(&self) -> (session: Option<CaptureSession>)
        ensures
            session == session_of(self@.state),
    {
        match self.state {
            State::Recording(session) => Some(session),
            _ => None,
        }
    }

    /// The vocabulary that the controller matches transcripts against.
    pub fn vocabulary(&self) -> (vocabulary: &Vocabulary)
        ensures
            vocabulary@ == self@.labels,
    {
        &self.vocabulary
    }

    /// The score below which an intent is of low confidence.
    pub fn threshold(&self) -> (threshold: Score)
        ensures
            threshold@ == self@.threshold,
    {
        self.threshold
    }

    /// The number of requests that wait to be taken up.
    pub fn pending(&self) -> (count: usize)
        ensures
            count == self@.pending.len(),
    {
        self.pending.len()
    }
}

/// The outcome that a state waits for.
pub open spec fn awaits(state: State, outcome: OutcomeView) -> bool {
    match state {
        State::Starting => outcome is Started || outcome is StartFailed,
        State::Stopping { .. } => outcome is Terminated || outcome is TerminateFailed,
        State::Reaping { .. } => outcome is Reaped,
        State::Normalizing { .. } => outcome is Normalized,
        State::Transcribing { .. } => outcome is Transcribed || outcome is TranscribeFailed,
        _ => false,
    }
}

/// How many outcomes a stop request in progress is away from its answer, at
/// most.
pub open spec fn steps_to_answer(state: State) -> nat {
    match state {
        State::Stopping { .. } => 4,
        State::Reaping { .. } => 3,
        State::Normalizing { .. } => 2,
        State::Transcribing { .. } => 1,
        _ => 0,
    }
}

/// A start request that is taken up while a recording runs leaves the session
/// as it is and asks for no second recorder.
pub proof fn lemma_start_while_recording_changes_nothing(controller: ControllerView)
    requires
        controller.state is Recording,
        controller.pending.len() > 0,
        controller.pending[0].signal == MainSignal::StartMic,
    ensures
        controller.poll().0.state == controller.state,
        session_of(controller.poll().0.state) == session_of(controller.state),
        controller.poll().1 == ActionView::Wait,
{
}

/// A stop request that is taken up while idle is answered at once with an
/// error, under its own token. Neither the repair tool nor the recogniser
/// nor the matcher is involved, and the controller stays idle.
pub proof fn lemma_stop_while_idle_is_an_error(controller: ControllerView)
    requires
        controller.state is Idle,
        controller.pending.len() > 0,
        controller.pending[0].signal == MainSignal::StopMic,
    ensures
        controller.poll().0.state is Idle,
        controller.poll().1 == error_reply(controller.pending[0].token, Failure::NoActiveSession),
{
}

/// Whenever the controller gives an answer, be it an intent or an error, it
/// is idle afterwards.
pub proof fn lemma_idle_after_every_answer(controller: ControllerView, outcome: OutcomeView)
    ensures
        controller.poll().1 is Reply ==> controller.poll().0.state is Idle,
        controller.complete(outcome).1 is Reply ==> controller.complete(outcome).0.state is Idle,
{
}

/// A recorder is started only from the idle state, where no session exists:
/// there is never a second one.
pub proof fn lemma_recorder_starts_only_when_idle(controller: ControllerView, outcome: OutcomeView)
    ensures
        controller.poll().1 is StartRecorder ==> controller.state is Idle,
        !(controller.complete(outcome).1 is StartRecorder),
        session_of(controller.complete(outcome).0.state) is Some && session_of(controller.state)
            is None ==> controller.state is Starting && outcome is Started,
        session_of(controller.poll().0.state) is Some ==> session_of(controller.poll().0.state)
            == session_of(controller.state),
{
}

/// The pipeline runs in order. The repair is asked for only once the recorder
/// has exited, the transcription only after a repair that succeeded and left
/// a readable output, and an intent is answered only to a transcript.
pub proof fn lemma_pipeline_runs_in_order(controller: ControllerView, outcome: OutcomeView)
    ensures
        !(controller.poll().1 is ReapRecorder || controller.poll().1 is Normalize
            || controller.poll().1 is Transcribe),
        controller.complete(outcome).1 is Normalize ==> controller.state is Reaping
            && outcome is Reaped,
        controller.complete(outcome).1 is Transcribe ==> controller.state is Normalizing
            && outcome == (OutcomeView::Normalized { tool_succeeded: true, output_readable: true }),
        controller.complete(outcome).1 matches ActionView::Reply { answer, .. } && answer
            is Intent ==> controller.state is Transcribing && outcome is Transcribed,
        controller.poll().1 matches ActionView::Reply { answer, .. } ==> answer is Error,
{
}

/// An answer reaches the request that asked for it. A stop request that is
/// taken up is either answered at once under its own token, or the
/// controller works on that token; and while it works on a token, every
/// answer it gives carries that token, and it works on no other until the
/// answer is out.
pub proof fn lemma_answer_goes_to_its_request(controller: ControllerView, outcome: OutcomeView)
    ensures
        !is_busy(controller.state) && controller.pending.len() > 0 ==> {
            let (next, action) = controller.poll();
            &&& action matches ActionView::Reply { token, .. } ==> token
                == controller.pending[0].token
            &&& token_of(next.state) matches Some(token) ==> token == controller.pending[0].token
        },
        token_of(controller.state) matches Some(current) ==> {
            let (next, action) = controller.complete(outcome);
            &&& action matches ActionView::Reply { token, .. } ==> token == current
            &&& token_of(next.state) matches Some(token) ==> token == current
            &&& controller.poll().0 == controller
        },
        token_of(controller.state) is None ==> !(controller.complete(outcome).1 is Reply),
{
}

/// A stop request is never more than four outcomes away from its answer.
/// Taken up while idle it is answered at once. Taken up while recording it
/// occupies the controller, and from then on each outcome that the
/// controller waits for either brings the answer or brings it one step
/// closer without answering; any other outcome changes nothing and answers
/// nothing.
pub proof fn lemma_stop_in_progress_nears_its_answer(controller: ControllerView, outcome: OutcomeView)
    ensures
        !is_busy(controller.state) && controller.pending.len() > 0 && controller.pending[0].signal
            == MainSignal::StopMic ==> {
            let (next, action) = controller.poll();
            (action is Reply && !is_busy(next.state)) || (!(action is Reply) && token_of(
                next.state,
            ) is Some)
        },
        token_of(controller.state) is Some && awaits(controller.state, outcome) ==> {
            let (next, action) = controller.complete(outcome);
            (action is Reply && next.state is Idle) || (!(action is Reply) && token_of(next.state)
                is Some && steps_to_answer(next.state) < steps_to_answer(controller.state))
        },
        !awaits(controller.state, outcome) ==> controller.complete(outcome) == (
            controller,
            ActionView::Wait,
        ),
{
}

/// No request is dropped and none overtakes another: a submitted request
/// joins the end of the queue, and the controller takes requests from the
/// front, one per poll, and only while it is not busy.
pub proof fn lemma_requests_are_served_in_order(controller: ControllerView, request: Request)
    ensures
        controller.submit(request).pending == controller.pending.push(request),
        controller.submit(request).state == controller.state,
        is_busy(controller.state) ==> controller.poll().0 == controller,
        !is_busy(controller.state) && controller.pending.len() > 0 ==> controller.poll().0.pending
            == controller.pending.skip(1),
{
}

/// An answer reflects the transcript of its own recording and nothing that
/// went before: two controllers with the same vocabulary and threshold give
/// the same answer to the same transcript, whatever their tokens and queues.
pub proof fn lemma_answer_depends_on_transcript_alone(
    a: ControllerView,
    b: ControllerView,
    transcript: Seq<char>,
)
    requires
        a.state is Transcribing,
        b.state is Transcribing,
        a.labels == b.labels,
        a.threshold == b.threshold,
    ensures
        ({
            let reply_a = a.complete(OutcomeView::Transcribed(transcript)).1;
            let reply_b = b.complete(OutcomeView::Transcribed(transcript)).1;
            &&& reply_a matches ActionView::Reply { answer: answer_a, low_confidence: low_a, .. }
            &&& reply_b matches ActionView::Reply { answer: answer_b, low_confidence: low_b, .. }
            &&& answer_a == answer_b
            &&& low_a == low_b
        }),
{
}

/// The intent that answers a transcript is a label of the vocabulary, and a
/// score below the threshold does not turn it into an error.
pub proof fn lemma_intent_is_a_label(
    token: u64,
    transcript: Seq<char>,
    labels: Seq<Seq<char>>,
    threshold: u32,
)
    requires
        labels.len() > 0,
    ensures
        intent_reply(token, transcript, labels, threshold) matches ActionView::Reply {
            answer: AnswerView::Intent(label),
            ..
        } && labels.contains(label),
{
    let scores = vocabulary_scores(transcript, labels);
    lemma_best_index_exists(scores);
}

} // verus!
