//! A whole streaming invocation over a recorded output, and the laws of the
//! streaming protocol.

use vstd::prelude::*;
use crate::failure::{FailureModel, ProtocolFaultModel, WorkerFailure};
use crate::json::{Json, json_parse};
use crate::lines::{lines_of, lines_view, split_lines};
use crate::message::{MessageModel, WorkerMessage, message_of, progress_of, text_or};
use crate::stream::{
    EventModel, ExitModel, ExitReport, StateModel, absorb_line, candidate_view, conclude,
    conclusion, is_resolved, line_effect, next, outcome_view,
};
use crate::tracks::{VideoInfoModel, tracks_outcome};

verus! {

/// What a whole invocation gave: the progress values in the order in which the
/// observer got them, and the result.
#[derive(Debug, PartialEq, Eq)]
pub struct Transcript {
    pub progress: Vec<Json>,
    pub outcome: Result<String, WorkerFailure>,
}

/// The candidate and the progress values after the first `count` lines.
pub open spec fn after_lines(lines: Seq<Seq<char>>, count: int) -> (Option<MessageModel>, Seq<Json>)
    decreases count,
{
    if count <= 0 {
        (None, Seq::empty())
    } else {
        let before = after_lines(lines, count - 1);
        let effect = line_effect(before.0, json_parse(lines[count - 1]));
        (
            effect.0,
            match effect.1 {
                Some(value) => before.1.push(value),
                None => before.1,
            },
        )
    }
}

/// The progress values that the observer gets for a whole output, in order.
pub open spec fn replay_progress(lines: Seq<Seq<char>>) -> Seq<Json> {
    after_lines(lines, lines.len() as int).1
}

/// The result of a whole output followed by the worker's exit.
pub open spec fn replay_outcome(lines: Seq<Seq<char>>, exit: ExitModel) -> Result<
    Seq<char>,
    FailureModel,
> {
    conclusion(after_lines(lines, lines.len() as int).0, exit)
}

/// Whether a line leaves the candidate alone: it is not JSON, not an
/// envelope, or a progress update.
pub open spec fn is_not_final(line: Seq<char>) -> bool {
    match json_parse(line) {
        Err(_) => true,
        Ok(json) => match message_of(json) {
            None => true,
            Some(message) => progress_of(message).is_some(),
        },
    }
}

/// Whether a line is a progress update that reports `value`.
pub open spec fn reports_progress(line: Seq<char>, value: Json) -> bool {
    match json_parse(line) {
        Err(_) => false,
        Ok(json) => match message_of(json) {
            None => false,
            Some(message) => progress_of(message) == Some(value),
        },
    }
}

/// Whether a line is the final message `message`.
pub open spec fn is_final(line: Seq<char>, message: MessageModel) -> bool {
    match json_parse(line) {
        Err(_) => false,
        Ok(json) => message_of(json) == Some(message) && progress_of(message).is_none(),
    }
}

/// Runs a whole invocation over a recorded output: takes in every line in
/// turn, then resolves on the worker's exit.
pub fn replay(lines: &Vec<String>, exit: ExitReport) -> (r: Transcript)
    ensures
        r.progress@ == replay_progress(lines_view(*lines)),
        outcome_view(r.outcome) == replay_outcome(lines_view(*lines), exit@),
{
    let ghost texts = lines_view(*lines);
    let mut progress: Vec<Json> = Vec::new();
    let mut candidate: Option<WorkerMessage> = None;
    let mut i: usize = 0;
    while i < lines.len()
        invariant
            i <= lines.len(),
            texts == lines_view(*lines),
            candidate_view(candidate) == after_lines(texts, i as int).0,
            progress@ == after_lines(texts, i as int).1,
        decreases lines.len() - i,
    {
        let (kept, value) = absorb_line(candidate, lines[i].as_str());
        candidate = kept;
        match value {
            Some(value) => {
                progress.push(value);
            },
            None => {},
        }
        i += 1;
    }
    Transcript { progress, outcome: conclude(candidate, exit) }
}

/// Runs a whole invocation over the worker's recorded output, cut into lines.
pub fn replay_output(output: &str, exit: ExitReport) -> (r: Transcript)
    ensures
        r.progress@ == replay_progress(lines_of(output@)),
        outcome_view(r.outcome) == replay_outcome(lines_of(output@), exit@),
{
    let lines = split_lines(output);
    replay(&lines, exit)
}

/// A message that reports failure resolves to a worker failure that carries
/// the message's text, or `Unknown error` where it has none, in a track
/// listing as well as at the end of a stream.
pub proof fn law_reported_failure_carries_message(json: Json, message: MessageModel, exit: ExitModel)
    requires
        message_of(json) == Some(message),
        !message.success,
        exit.success,
    ensures
        tracks_outcome(Ok(json)) == Err::<VideoInfoModel, FailureModel>(
            FailureModel::Worker(text_or(message.message, "Unknown error"@)),
        ),
        conclusion(Some(message), exit) == Err::<Seq<char>, FailureModel>(
            FailureModel::Worker(text_or(message.message, "Unknown error"@)),
        ),
{
}

/// While every line so far is a progress update, there is no candidate and the
/// observer has got exactly the values of these lines, in their order.
pub proof fn lemma_progress_prefix(lines: Seq<Seq<char>>, values: Seq<Json>, count: int)
    requires
        0 <= count <= values.len(),
        values.len() <= lines.len(),
        forall|i: int| 0 <= i < values.len() ==> reports_progress(#[trigger] lines[i], values[i]),
    ensures
        after_lines(lines, count) == (None::<MessageModel>, values.take(count)),
    decreases count,
{
    if count > 0 {
        lemma_progress_prefix(lines, values, count - 1);
        assert(reports_progress(lines[count - 1], values[count - 1]));
        assert(values.take(count - 1).push(values[count - 1]) =~= values.take(count));
    } else {
        assert(values.take(0) =~= Seq::<Json>::empty());
    }
}

/// Progress updates followed by one final message that reports success, and
/// a clean exit: the observer gets one value for each update, in the order of
/// the lines, and the invocation resolves to the final message's text, or
/// `Success` where it has none.
pub proof fn law_progress_then_success(
    lines: Seq<Seq<char>>,
    values: Seq<Json>,
    last: MessageModel,
    exit: ExitModel,
)
    requires
        lines.len() == values.len() + 1,
        forall|i: int| 0 <= i < values.len() ==> reports_progress(#[trigger] lines[i], values[i]),
        is_final(lines[values.len() as int], last),
        last.success,
        exit.success,
    ensures
        replay_progress(lines) == values,
        replay_outcome(lines, exit) == Ok::<Seq<char>, FailureModel>(
            text_or(last.message, "Success"@),
        ),
{
    lemma_progress_prefix(lines, values, values.len() as int);
    assert(values.take(values.len() as int) =~= values);
}

/// A failure status decides the result, whatever was read before: a process
/// failure that carries the status and all of the error stream's text.
pub proof fn law_failed_exit_wins(lines: Seq<Seq<char>>, exit: ExitModel)
    requires
        !exit.success,
    ensures
        replay_outcome(lines, exit) == Err::<Seq<char>, FailureModel>(
            FailureModel::Process { status: exit.status, stderr: exit.stderr },
        ),
{
}

/// As long as no line is a final message there is no candidate.
pub proof fn lemma_no_candidate(lines: Seq<Seq<char>>, count: int)
    requires
        0 <= count <= lines.len(),
        forall|i: int| 0 <= i < lines.len() ==> is_not_final(#[trigger] lines[i]),
    ensures
        after_lines(lines, count).0.is_none(),
    decreases count,
{
    if count > 0 {
        lemma_no_candidate(lines, count - 1);
        assert(is_not_final(lines[count - 1]));
    }
}

/// A clean exit without any final message is a protocol failure.
pub proof fn law_clean_exit_without_final(lines: Seq<Seq<char>>, exit: ExitModel)
    requires
        exit.success,
        forall|i: int| 0 <= i < lines.len() ==> is_not_final(#[trigger] lines[i]),
    ensures
        replay_outcome(lines, exit) == Err::<Seq<char>, FailureModel>(
            FailureModel::Protocol(ProtocolFaultModel::NoFinalResponse),
        ),
{
    lemma_no_candidate(lines, lines.len() as int);
}

/// The same output and the same exit give the same progress values in the
/// same order and the same result, however often they are replayed.
pub proof fn law_replay_repeats(first: Transcript, second: Transcript, lines: Seq<Seq<char>>, exit: ExitModel)
    requires
        first.progress@ == replay_progress(lines),
        outcome_view(first.outcome) == replay_outcome(lines, exit),
        second.progress@ == replay_progress(lines),
        outcome_view(second.outcome) == replay_outcome(lines, exit),
    ensures
        first.progress@ == second.progress@,
        outcome_view(first.outcome) == outcome_view(second.outcome),
{
}

/// Progress is handed out only while output is being read, and an invocation
/// that has read output resolves only on the worker's exit or on a failed
/// delivery: every progress value is out before the result is.
pub proof fn law_progress_before_resolution(state: StateModel, event: EventModel)
    ensures
        next(state, event).1.is_some() ==> state is ReadingOutput && event is Line && next(
            state,
            event,
        ).0 is ReadingOutput,
        is_resolved(state) ==> next(state, event) == (state, None::<Json>),
        state is OutputClosed && is_resolved(next(state, event).0) ==> event is Exited,
        state is ReadingOutput && is_resolved(next(state, event).0) ==> event is DeliveryFailed,
        next(state, event).0 is Succeeded ==> is_resolved(state) || (state is OutputClosed
            && event is Exited),
{
}

/// The state after a run of events, and the progress values handed out on the
/// way, in order.
pub open spec fn run(state: StateModel, events: Seq<EventModel>) -> (StateModel, Seq<Json>)
    decreases events.len(),
{
    if events.len() == 0 {
        (state, Seq::empty())
    } else {
        let before = run(state, events.drop_last());
        let moved = next(before.0, events.last());
        (
            moved.0,
            match moved.1 {
                Some(value) => before.1.push(value),
                None => before.1,
            },
        )
    }
}

/// The events of the first `count` lines of an invocation that was launched.
pub open spec fn reading(lines: Seq<Seq<char>>, count: int) -> Seq<EventModel> {
    seq![EventModel::Launched] + Seq::new(count as nat, |i: int| EventModel::Line(lines[i]))
}

/// The events of a whole invocation: the launch, every line, the end of the
/// output, the exit.
pub open spec fn session(lines: Seq<Seq<char>>, exit: ExitModel) -> Seq<EventModel> {
    reading(lines, lines.len() as int) + seq![EventModel::OutputEnded, EventModel::Exited(exit)]
}

/// The state in which an invocation with this result rests.
pub open spec fn resolved(outcome: Result<Seq<char>, FailureModel>) -> StateModel {
    match outcome {
        Ok(message) => StateModel::Succeeded(message),
        Err(failure) => StateModel::Failed(failure),
    }
}

/// After the launch and the first `count` lines the machine is reading, with
/// the candidate and the progress values of these lines.
pub proof fn lemma_run_reading(lines: Seq<Seq<char>>, count: int)
    requires
        0 <= count <= lines.len(),
    ensures
        run(StateModel::Started, reading(lines, count)) == (
            StateModel::ReadingOutput(after_lines(lines, count).0),
            after_lines(lines, count).1,
        ),
    decreases count,
{
    let events = reading(lines, count);
    if count == 0 {
        assert(events.drop_last() =~= Seq::<EventModel>::empty());
        assert(run(StateModel::Started, events.drop_last()) == (
            StateModel::Started,
            Seq::<Json>::empty(),
        ));
    } else {
        lemma_run_reading(lines, count - 1);
        assert(events.drop_last() =~= reading(lines, count - 1));
        assert(events.last() == EventModel::Line(lines[count - 1]));
    }
}

/// The machine, run over the events of a whole invocation, hands out the
/// progress values of the output in order and comes to rest in the state of
/// the output's result.
pub proof fn law_machine_runs_the_replay(lines: Seq<Seq<char>>, exit: ExitModel)
    ensures
        run(StateModel::Started, session(lines, exit)) == (
            resolved(replay_outcome(lines, exit)),
            replay_progress(lines),
        ),
{
    let read = reading(lines, lines.len() as int);
    let closed = read.push(EventModel::OutputEnded);
    let whole = session(lines, exit);
    lemma_run_reading(lines, lines.len() as int);
    assert(closed.drop_last() =~= read);
    assert(closed.last() == EventModel::OutputEnded);
    assert(run(StateModel::Started, closed) == (
        StateModel::OutputClosed(after_lines(lines, lines.len() as int).0),
        replay_progress(lines),
    ));
    assert(whole =~= closed.push(EventModel::Exited(exit)));
    assert(whole.drop_last() =~= closed);
    assert(whole.last() == EventModel::Exited(exit));
}

} // verus!
