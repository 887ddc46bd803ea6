//! The ways in which one worker invocation can fail.

use vstd::prelude::*;

verus! {

/// Why the worker's output could not be understood.
#[derive(Debug, PartialEq, Eq)]
pub enum ProtocolFault {
    /// The output is not JSON; holds the parser's message.
    Malformed(String),
    /// The output is JSON but not an envelope.
    NotAnEnvelope,
    /// The envelope reports success but its data describes no video.
    NoVideoInfo,
    /// The worker exited cleanly without a final message.
    NoFinalResponse,
}

/// Mathematical value of a `ProtocolFault`.
pub enum ProtocolFaultModel {
    Malformed(Seq<char>),
    NotAnEnvelope,
    NoVideoInfo,
    NoFinalResponse,
}

impl View for ProtocolFault {
    type V = ProtocolFaultModel;

    open spec fn view(&self) -> ProtocolFaultModel {
        match self {
            ProtocolFault::Malformed(detail) => ProtocolFaultModel::Malformed(detail@),
            ProtocolFault::NotAnEnvelope => ProtocolFaultModel::NotAnEnvelope,
            ProtocolFault::NoVideoInfo => ProtocolFaultModel::NoVideoInfo,
            ProtocolFault::NoFinalResponse => ProtocolFaultModel::NoFinalResponse,
        }
    }
}

/// The terminal failure of one invocation.
#[derive(Debug, PartialEq, Eq)]
pub enum WorkerFailure {
    /// The worker could not be found or started; holds the system's reason.
    Launch(String),
    /// The worker's output broke the protocol.
    Protocol(ProtocolFault),
    /// The worker exited with a failure status; holds the status as the
    /// platform renders it and everything the worker wrote to its error stream.
    Process { status: String, stderr: String },
    /// The worker itself reported failure; holds its message.
    Worker(String),
    /// A progress value could not be handed to the observer.
    Delivery(String),
}

/// Mathematical value of a `WorkerFailure`.
pub enum FailureModel {
    Launch(Seq<char>),
    Protocol(ProtocolFaultModel),
    Process { status: Seq<char>, stderr: Seq<char> },
    Worker(Seq<char>),
    Delivery(Seq<char>),
}

impl View for WorkerFailure {
    type V = FailureModel;

    open spec fn view(&self) -> FailureModel {
        match self {
            WorkerFailure::Launch(reason) => FailureModel::Launch(reason@),
            WorkerFailure::Protocol(fault) => FailureModel::Protocol(fault@),
            WorkerFailure::Process { status, stderr } => FailureModel::Process {
                status: status@,
                stderr: stderr@,
            },
            WorkerFailure::Worker(message) => FailureModel::Worker(message@),
            WorkerFailure::Delivery(reason) => FailureModel::Delivery(reason@),
        }
    }
}

/// The text shown to the caller for each failure.
pub open spec fn failure_text(failure: FailureModel) -> Seq<char> {
    match failure {
        FailureModel::Launch(reason) => "Failed to execute Go backend: "@ + reason,
        FailureModel::Protocol(ProtocolFaultModel::Malformed(detail)) => "Failed to parse response: "@
            + detail,
        FailureModel::Protocol(ProtocolFaultModel::NotAnEnvelope) => "Failed to parse response: not a response envelope"@,
        FailureModel::Protocol(ProtocolFaultModel::NoVideoInfo) => "Failed to parse video info"@,
        FailureModel::Protocol(ProtocolFaultModel::NoFinalResponse) => "No final response received"@,
        FailureModel::Process { status, stderr } => "Command failed with status "@ + status + ": "@
            + stderr,
        FailureModel::Worker(message) => message,
        FailureModel::Delivery(reason) => "Failed to emit progress event: "@ + reason,
    }
}

/// Calls `concat` of std on the two pieces. Trusted: the result reads `head`
/// followed by `tail`.
#[verifier::external_body]
fn join(head: &str, tail: &str) -> (r: String)
    ensures
        r@ == head@ + tail@,
{
    [head, tail].concat()
}

impl WorkerFailure {
    /// The human-readable reason, as `failure_text` gives it.
    pub fn message(&self) -> (r: String)
        ensures
            r@ == failure_text(self@),
    {
        match self {
            WorkerFailure::Launch(reason) => join("Failed to execute Go backend: ", reason.as_str()),
            WorkerFailure::Protocol(ProtocolFault::Malformed(detail)) => join(
                "Failed to parse response: ",
                detail.as_str(),
            ),
            WorkerFailure::Protocol(ProtocolFault::NotAnEnvelope) => "Failed to parse response: not a response envelope".to_owned(),
            WorkerFailure::Protocol(ProtocolFault::NoVideoInfo) => "Failed to parse video info".to_owned(),
            WorkerFailure::Protocol(ProtocolFault::NoFinalResponse) => "No final response received".to_owned(),
            WorkerFailure::Process { status, stderr } => {
                let head = join("Command failed with status ", status.as_str());
                let middle = join(head.as_str(), ": ");
                join(middle.as_str(), stderr.as_str())
            },
            WorkerFailure::Worker(message) => message.clone(),
            WorkerFailure::Delivery(reason) => join("Failed to emit progress event: ", reason.as_str()),
        }
    }
}

} // verus!
