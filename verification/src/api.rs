//! What the gateway and the controller say to each other.

use vstd::prelude::*;
use vstd::string::StringExecFns;

verus! {

/// A signal from the gateway to the controller.
#[derive(Clone, Copy, Debug, PartialEq, Eq, Structural)]
pub enum MainSignal {
    /// Start capturing audio. Nobody waits for a reply to it.
    StartMic,
    /// Stop capturing and recognise what was said. Exactly one answer follows.
    StopMic,
}

/// A signal together with the token of the request that sent it. The reply to
/// a `StopMic` carries the same token, so that it reaches the request that
/// asked and no other.
#[derive(Clone, Copy, Debug, PartialEq, Eq, Structural)]
pub struct Request {
    pub signal: MainSignal,
    pub token: u64,
}

/// Why a stop request got no intent.
#[derive(Clone, Copy, Debug, PartialEq, Eq, Structural)]
pub enum Failure {
    /// Nothing was being recorded when the stop request was taken up.
    NoActiveSession,
    /// The recording could not be repaired into the canonical waveform.
    Normalize,
    /// The recogniser failed on the waveform.
    Transcribe,
}

/// The controller's one reply to a stop request.
#[derive(Debug, PartialEq, Eq)]
pub enum Answer {
    /// The label of the vocabulary that matched best.
    Intent(String),
    /// No label: the request failed for the given reason.
    Error(Failure),
}

/// An answer with its label as a sequence of characters.
pub enum AnswerView {
    Intent(Seq<char>),
    Error(Failure),
}

impl View for Answer {
    type V = AnswerView;

    open spec fn view(&self) -> AnswerView {
        match self {
            Answer::Intent(label) => AnswerView::Intent(label@),
            Answer::Error(failure) => AnswerView::Error(*failure),
        }
    }
}

/// What the controller sends back to the gateway.
#[derive(Debug, PartialEq, Eq)]
pub enum ServerSignal {
    /// The body of the reply to a stop request.
    MainAnswer(String),
}

impl View for ServerSignal {
    type V = Seq<char>;

    open spec fn view(&self) -> Seq<char> {
        match self {
            ServerSignal::MainAnswer(body) => body@,
        }
    }
}

/// The text of a failure.
pub open spec fn reason_of(failure: Failure) -> Seq<char> {
    match failure {
        Failure::NoActiveSession => "no active session"@,
        Failure::Normalize => "normalize"@,
        Failure::Transcribe => "transcribe"@,
    }
}

/// The body that a stop request is answered with: the label of an intent,
/// and `ERR` for every error.
pub open spec fn body_of(answer: AnswerView) -> Seq<char> {
    match answer {
        AnswerView::Intent(label) => label,
        AnswerView::Error(_) => "ERR"@,
    }
}

impl Failure {
    /// The failure in words: `no active session`, or the name of the stage
    /// that failed.
    pub fn reason(&self) -> (reason: String)
        ensures
            reason@ == reason_of(*self),
    {
        match self {
            Failure::NoActiveSession => String::from_str("no active session"),
            Failure::Normalize => String::from_str("normalize"),
            Failure::Transcribe => String::from_str("transcribe"),
        }
    }
}

impl Answer {
    /// The body of the reply that carries this answer.
    pub fn body(&self) -> (body: String)
        ensures
            body@ == body_of(self@),
    {
        match self {
            Answer::Intent(label) => label.clone(),
            Answer::Error(_) => String::from_str("ERR"),
        }
    }
}

impl ServerSignal {
    /// The signal that carries `answer` to the gateway.
    pub fn from_answer(answer: &Answer) -> (signal: ServerSignal)
        ensures
            signal@ == body_of(answer@),
    {
        ServerSignal::MainAnswer(answer.body())
    }

    /// The body that the signal carries.
    pub fn into_body(self) -> (body: String)
        ensures
            body@ == self@,
    {
        match self {
            ServerSignal::MainAnswer(body) => body,
        }
    }
}

} // verus!
