//! The streaming protocol: the worker writes one JSON message per line,
//! progress updates first and a final answer last, and the invocation resolves
//! only after the worker has exited.

use vstd::prelude::*;
use crate::failure::{FailureModel, ProtocolFault, ProtocolFaultModel, WorkerFailure};
use crate::json::{Json, json_parse, parse_json};
use crate::message::{
    Classified, MessageModel, WorkerMessage, decode_message, message_of, progress_of, text_or,
};

verus! {

/// How the worker ended: whether its exit status means success, the status as
/// the platform renders it, and everything it wrote to its error stream.
#[derive(Debug, PartialEq, Eq)]
pub struct ExitReport {
    pub success: bool,
    pub status: String,
    pub stderr: String,
}

/// Mathematical value of an `ExitReport`.
pub struct ExitModel {
    pub success: bool,
    pub status: Seq<char>,
    pub stderr: Seq<char>,
}

impl View for ExitReport {
    type V = ExitModel;

    open spec fn view(&self) -> ExitModel {
        ExitModel { success: self.success, status: self.status@, stderr: self.stderr@ }
    }
}

/// Mathematical value of a final-answer candidate.
pub open spec fn candidate_view(candidate: Option<WorkerMessage>) -> Option<MessageModel> {
    match candidate {
        Some(message) => Some(message@),
        None => None,
    }
}

/// Mathematical value of what the parser made of a text.
pub open spec fn parsed_view(parsed: Result<Json, String>) -> Result<Json, Seq<char>> {
    match parsed {
        Ok(json) => Ok(json),
        Err(detail) => Err(detail@),
    }
}

/// Mathematical value of a streaming invocation's result.
pub open spec fn outcome_view(outcome: Result<String, WorkerFailure>) -> Result<
    Seq<char>,
    FailureModel,
> {
    match outcome {
        Ok(message) => Ok(message@),
        Err(failure) => Err(failure@),
    }
}

/// What one line of output does, given what the parser made of it: the
/// candidate afterwards, and the progress value to hand to the observer.
///
/// A line that is not JSON or not an envelope changes nothing. A progress
/// update is handed on and leaves the candidate alone. Any other envelope
/// becomes the candidate, replacing an earlier one.
pub open spec fn line_effect(candidate: Option<MessageModel>, parsed: Result<Json, Seq<char>>) -> (
    Option<MessageModel>,
    Option<Json>,
) {
    match parsed {
        Err(_) => (candidate, None),
        Ok(json) => match message_of(json) {
            None => (candidate, None),
            Some(message) => match progress_of(message) {
                Some(value) => (candidate, Some(value)),
                None => (Some(message), None),
            },
        },
    }
}

/// What the invocation resolves to once the worker has exited.
///
/// A failure status wins over everything read before. After a clean exit, no
/// candidate is a protocol failure; a candidate that reports failure gives its
/// message, or `Unknown error`; one that reports success gives its message, or
/// `Success`.
pub open spec fn conclusion(candidate: Option<MessageModel>, exit: ExitModel) -> Result<
    Seq<char>,
    FailureModel,
> {
    if !exit.success {
        Err(FailureModel::Process { status: exit.status, stderr: exit.stderr })
    } else {
        match candidate {
            None => Err(FailureModel::Protocol(ProtocolFaultModel::NoFinalResponse)),
            Some(message) => if message.success {
                Ok(text_or(message.message, "Success"@))
            } else {
                Err(FailureModel::Worker(text_or(message.message, "Unknown error"@)))
            },
        }
    }
}

/// Takes in one line of output, given what the parser made of it.
pub fn absorb_parsed(candidate: Option<WorkerMessage>, parsed: Result<Json, String>) -> (r: (
    Option<WorkerMessage>,
    Option<Json>,
))
    ensures
        (candidate_view(r.0), r.1) == line_effect(candidate_view(candidate), parsed_view(parsed)),
{
    let json = match parsed {
        Ok(json) => json,
        Err(_) => {
            return (candidate, None);
        },
    };
    match decode_message(json) {
        None => (candidate, None),
        Some(message) => match message.classify() {
            Classified::Progress(value) => (candidate, Some(value)),
            Classified::Final(kept) => (Some(kept), None),
        },
    }
}

/// Takes in one line of output.
pub fn absorb_line(candidate: Option<WorkerMessage>, line: &str) -> (r: (
    Option<WorkerMessage>,
    Option<Json>,
))
    ensures
        (candidate_view(r.0), r.1) == line_effect(candidate_view(candidate), json_parse(line@)),
{
    absorb_parsed(candidate, parse_json(line))
}

/// Resolves the invocation once the worker has exited.
pub fn conclude(candidate: Option<WorkerMessage>, exit: ExitReport) -> (r: Result<
    String,
    WorkerFailure,
>)
    ensures
        outcome_view(r) == conclusion(candidate_view(candidate), exit@),
        !exit.success ==> (r matches Err(WorkerFailure::Process { status, stderr }) && stderr@
            == exit.stderr@ && status@ == exit.status@),
        exit.success && candidate.is_none() ==> (r matches Err(
            WorkerFailure::Protocol(ProtocolFault::NoFinalResponse),
        )),
{
    if !exit.success {
        return Err(WorkerFailure::Process { status: exit.status, stderr: exit.stderr });
    }
    match candidate {
        None => Err(WorkerFailure::Protocol(ProtocolFault::NoFinalResponse)),
        Some(message) => if message.success {
            match message.message {
                Some(text) => Ok(text),
                None => Ok("Success".to_owned()),
            }
        } else {
            match message.message {
                Some(text) => Err(WorkerFailure::Worker(text)),
                None => Err(WorkerFailure::Worker("Unknown error".to_owned())),
            }
        },
    }
}

/// Where a streaming invocation stands.
///
/// The worker's exit is no resting state: the `Exited` event, which is taken
/// only once the output has closed, resolves the invocation at once.
#[derive(Debug, PartialEq, Eq)]
pub enum StreamState {
    /// The worker has not been launched yet.
    Started,
    /// The worker runs and its output is being read; holds the candidate.
    ReadingOutput(Option<WorkerMessage>),
    /// The output has ended; the worker's exit is awaited.
    OutputClosed(Option<WorkerMessage>),
    /// Resolved with the worker's success message.
    Succeeded(String),
    /// Resolved with a failure.
    Failed(WorkerFailure),
}

/// Mathematical value of a `StreamState`.
pub enum StateModel {
    Started,
    ReadingOutput(Option<MessageModel>),
    OutputClosed(Option<MessageModel>),
    Succeeded(Seq<char>),
    Failed(FailureModel),
}

impl View for StreamState {
    type V = StateModel;

    open spec fn view(&self) -> StateModel {
        match self {
            StreamState::Started => StateModel::Started,
            StreamState::ReadingOutput(candidate) => StateModel::ReadingOutput(
                candidate_view(*candidate),
            ),
            StreamState::OutputClosed(candidate) => StateModel::OutputClosed(
                candidate_view(*candidate),
            ),
            StreamState::Succeeded(message) => StateModel::Succeeded(message@),
            StreamState::Failed(failure) => StateModel::Failed(failure@),
        }
    }
}

/// What the driver of an invocation reports back.
#[derive(Debug, PartialEq, Eq)]
pub enum Event {
    /// The worker was started.
    Launched,
    /// The worker could not be started; holds the system's reason.
    LaunchFailed(String),
    /// One line of the worker's output.
    Line(String),
    /// The worker's output has ended.
    OutputEnded,
    /// The observer could not be given the last progress value.
    DeliveryFailed(String),
    /// The worker has exited.
    Exited(ExitReport),
}

/// Mathematical value of an `Event`.
pub enum EventModel {
    Launched,
    LaunchFailed(Seq<char>),
    Line(Seq<char>),
    OutputEnded,
    DeliveryFailed(Seq<char>),
    Exited(ExitModel),
}

impl View for Event {
    type V = EventModel;

    open spec fn view(&self) -> EventModel {
        match self {
            Event::Launched => EventModel::Launched,
            Event::LaunchFailed(reason) => EventModel::LaunchFailed(reason@),
            Event::Line(text) => EventModel::Line(text@),
            Event::OutputEnded => EventModel::OutputEnded,
            Event::DeliveryFailed(reason) => EventModel::DeliveryFailed(reason@),
            Event::Exited(exit) => EventModel::Exited(exit@),
        }
    }
}

/// What the driver has to do next.
#[derive(Clone, Copy, Debug, PartialEq, Eq, Structural)]
pub enum Awaited {
    /// Launch the worker and report `Launched` or `LaunchFailed`.
    Launch,
    /// Read the next line of output and report `Line` or `OutputEnded`.
    Output,
    /// Wait for the worker to exit and report `Exited`.
    Exit,
    /// Nothing: the invocation has resolved.
    Nothing,
}

/// A resolved state stays as it is.
pub open spec fn is_resolved(state: StateModel) -> bool {
    state is Succeeded || state is Failed
}

/// The state after an event, and the progress value to hand to the observer.
///
/// An event that the state does not await changes nothing.
pub open spec fn next(state: StateModel, event: EventModel) -> (StateModel, Option<Json>) {
    match (state, event) {
        (StateModel::Started, EventModel::Launched) => (StateModel::ReadingOutput(None), None),
        (StateModel::Started, EventModel::LaunchFailed(reason)) => (
            StateModel::Failed(FailureModel::Launch(reason)),
            None,
        ),
        (StateModel::ReadingOutput(candidate), EventModel::Line(text)) => {
            let effect = line_effect(candidate, json_parse(text));
            (StateModel::ReadingOutput(effect.0), effect.1)
        },
        (StateModel::ReadingOutput(candidate), EventModel::OutputEnded) => (
            StateModel::OutputClosed(candidate),
            None,
        ),
        (StateModel::ReadingOutput(_), EventModel::DeliveryFailed(reason)) => (
            StateModel::Failed(FailureModel::Delivery(reason)),
            None,
        ),
        (StateModel::OutputClosed(candidate), EventModel::Exited(exit)) => match conclusion(
            candidate,
            exit,
        ) {
            Ok(message) => (StateModel::Succeeded(message), None),
            Err(failure) => (StateModel::Failed(failure), None),
        },
        _ => (state, None),
    }
}

impl StreamState {
    /// What the driver has to do in this state.
    pub fn awaited(&self) -> (r: Awaited)
        ensures
            r == match self@ {
                StateModel::Started => Awaited::Launch,
                StateModel::ReadingOutput(_) => Awaited::Output,
                StateModel::OutputClosed(_) => Awaited::Exit,
                _ => Awaited::Nothing,
            },
    {
        match self {
            StreamState::Started => Awaited::Launch,
            StreamState::ReadingOutput(_) => Awaited::Output,
            StreamState::OutputClosed(_) => Awaited::Exit,
            _ => Awaited::Nothing,
        }
    }

    /// Moves the invocation on by one event. The second part of the result is
    /// the progress value that the driver must hand to the observer before it
    /// reads on.
    pub fn step(self, event: Event) -> (r: (StreamState, Option<Json>))
        ensures
            (r.0@, r.1) == next(self@, event@),
    {
        match self {
            StreamState::Started => match event {
                Event::Launched => (StreamState::ReadingOutput(None), None),
                Event::LaunchFailed(reason) => (
                    StreamState::Failed(WorkerFailure::Launch(reason)),
                    None,
                ),
                _ => (StreamState::Started, None),
            },
            StreamState::ReadingOutput(candidate) => match event {
                Event::Line(text) => {
                    let (kept, value) = absorb_line(candidate, text.as_str());
                    (StreamState::ReadingOutput(kept), value)
                },
                Event::OutputEnded => (StreamState::OutputClosed(candidate), None),
                Event::DeliveryFailed(reason) => (
                    StreamState::Failed(WorkerFailure::Delivery(reason)),
                    None,
                ),
                _ => (StreamState::ReadingOutput(candidate), None),
            },
            StreamState::OutputClosed(candidate) => match event {
                Event::Exited(exit) => match conclude(candidate, exit) {
                    Ok(message) => (StreamState::Succeeded(message), None),
                    Err(failure) => (StreamState::Failed(failure), None),
                },
                _ => (StreamState::OutputClosed(candidate), None),
            },
            StreamState::Succeeded(message) => (StreamState::Succeeded(message), None),
            StreamState::Failed(failure) => (StreamState::Failed(failure), None),
        }
    }
}

} // verus!
