use track_worker::failure::{ProtocolFault, WorkerFailure};
use track_worker::json::Json;
use track_worker::message::WorkerMessage;
use track_worker::replay::{replay, Transcript};
use track_worker::stream::{absorb_line, absorb_parsed, conclude, Awaited, Event, ExitReport, StreamState};

fn clean_exit() -> ExitReport {
    ExitReport { success: true, status: String::from("exit status: 0"), stderr: String::new() }
}

fn failed_exit(stderr: &str) -> ExitReport {
    ExitReport { success: false, status: String::from("exit status: 1"), stderr: String::from(stderr) }
}

fn sample_lines() -> Vec<String> {
    vec![
        String::from(r#"{"success":true,"message":"progress","data":{"progress":10}}"#),
        String::from(r#"{"success":true,"message":"progress","data":{"progress":55}}"#),
        String::from(r#"{"success":true,"message":"done","data":null}"#),
    ]
}

#[test]
fn two_updates_then_done_resolves_to_done() {
    let got = replay(&sample_lines(), clean_exit());
    assert_eq!(got.progress, vec![Json::Unsigned(10), Json::Unsigned(55)]);
    assert_eq!(got.outcome, Ok(String::from("done")));
}

#[test]
fn failed_exit_reports_error_stream_despite_final_line() {
    let got = replay(&sample_lines(), failed_exit("ffmpeg crashed"));
    assert_eq!(
        got.outcome,
        Err(WorkerFailure::Process {
            status: String::from("exit status: 1"),
            stderr: String::from("ffmpeg crashed"),
        })
    );
    assert_eq!(got.progress, vec![Json::Unsigned(10), Json::Unsigned(55)]);
}

#[test]
fn every_update_is_delivered_in_order() {
    let mut lines = Vec::new();
    for n in 0..20u64 {
        lines.push(format!(r#"{{"success":true,"message":"progress","data":{{"progress":{}}}}}"#, n * 5));
    }
    lines.push(String::from(r#"{"success":true}"#));
    let got = replay(&lines, clean_exit());
    let expected: Vec<Json> = (0..20u64).map(|n| Json::Unsigned(n * 5)).collect();
    assert_eq!(got.progress, expected);
    assert_eq!(got.outcome, Ok(String::from("Success")));
}

#[test]
fn clean_exit_without_final_line_is_protocol_failure() {
    let lines = vec![
        String::from(r#"{"success":true,"message":"progress","data":{"progress":1}}"#),
        String::from("ffmpeg version 6.0"),
        String::from(""),
        String::from("[1, 2]"),
    ];
    let got = replay(&lines, clean_exit());
    assert_eq!(got.progress, vec![Json::Unsigned(1)]);
    assert_eq!(got.outcome, Err(WorkerFailure::Protocol(ProtocolFault::NoFinalResponse)));
}

#[test]
fn empty_output_is_protocol_failure() {
    let got = replay(&Vec::new(), clean_exit());
    assert_eq!(got.progress, Vec::<Json>::new());
    assert_eq!(got.outcome, Err(WorkerFailure::Protocol(ProtocolFault::NoFinalResponse)));
}

#[test]
fn replaying_gives_the_same_transcript() {
    let first: Transcript = replay(&sample_lines(), clean_exit());
    let second: Transcript = replay(&sample_lines(), clean_exit());
    assert_eq!(first, second);
    let third = replay(&sample_lines(), failed_exit("boom"));
    let fourth = replay(&sample_lines(), failed_exit("boom"));
    assert_eq!(third, fourth);
}

#[test]
fn reported_failure_carries_its_message() {
    let lines = vec![String::from(r#"{"success":false,"message":"track 7 not found"}"#)];
    let got = replay(&lines, clean_exit());
    assert_eq!(got.outcome, Err(WorkerFailure::Worker(String::from("track 7 not found"))));
}

#[test]
fn reported_failure_without_message_uses_default() {
    let lines = vec![String::from(r#"{"success":false,"message":null,"data":null}"#)];
    let got = replay(&lines, clean_exit());
    assert_eq!(got.outcome, Err(WorkerFailure::Worker(String::from("Unknown error"))));
}

#[test]
fn last_final_message_wins() {
    let lines = vec![
        String::from(r#"{"success":false,"message":"first"}"#),
        String::from(r#"{"success":true,"message":"second"}"#),
    ];
    let got = replay(&lines, clean_exit());
    assert_eq!(got.outcome, Ok(String::from("second")));
    let lines = vec![
        String::from(r#"{"success":true,"message":"second"}"#),
        String::from(r#"{"success":false,"message":"first"}"#),
    ];
    let got = replay(&lines, clean_exit());
    assert_eq!(got.outcome, Err(WorkerFailure::Worker(String::from("first"))));
}

#[test]
fn malformed_lines_are_skipped() {
    let lines = vec![
        String::from("{not json"),
        String::from(r#"{"success":true,"message":"done"}"#),
        String::from(r#"{"success":"yes","message":"later"}"#),
        String::from(r#"{"message":"no success flag"}"#),
    ];
    let got = replay(&lines, clean_exit());
    assert_eq!(got.outcome, Ok(String::from("done")));
    assert_eq!(got.progress, Vec::<Json>::new());
}

#[test]
fn progress_text_without_progress_value_is_a_candidate() {
    let lines = vec![String::from(r#"{"success":true,"message":"progress","data":{"percent":3}}"#)];
    let got = replay(&lines, clean_exit());
    assert_eq!(got.progress, Vec::<Json>::new());
    assert_eq!(got.outcome, Ok(String::from("progress")));
    let lines = vec![String::from(r#"{"success":true,"message":"progress"}"#)];
    let got = replay(&lines, clean_exit());
    assert_eq!(got.outcome, Ok(String::from("progress")));
}

#[test]
fn progress_value_of_any_shape_is_passed_on() {
    let lines = vec![
        String::from(r#"{"success":true,"message":"progress","data":{"progress":12.5}}"#),
        String::from(r#"{"success":true,"message":"progress","data":{"progress":{"frame":-3}}}"#),
        String::from(r#"{"success":true,"message":"progress","data":{"progress":null}}"#),
        String::from(r#"{"success":true,"message":"ok"}"#),
    ];
    let got = replay(&lines, clean_exit());
    assert_eq!(
        got.progress,
        vec![
            Json::Real(String::from("12.5")),
            Json::Object(vec![(String::from("frame"), Json::Negative(-3))]),
            Json::Null,
        ]
    );
    assert_eq!(got.outcome, Ok(String::from("ok")));
}

#[test]
fn absorb_line_keeps_candidate_on_progress() {
    let kept = WorkerMessage { success: true, message: Some(String::from("early")), data: None };
    let (candidate, value) =
        absorb_line(Some(kept), r#"{"success":true,"message":"progress","data":{"progress":7}}"#);
    assert_eq!(value, Some(Json::Unsigned(7)));
    assert_eq!(
        candidate,
        Some(WorkerMessage { success: true, message: Some(String::from("early")), data: None })
    );
}

#[test]
fn absorb_parsed_ignores_parse_errors_and_other_documents() {
    let (candidate, value) = absorb_parsed(None, Err(String::from("expected value")));
    assert_eq!(candidate, None);
    assert_eq!(value, None);
    let (candidate, value) = absorb_parsed(None, Ok(Json::Unsigned(3)));
    assert_eq!(candidate, None);
    assert_eq!(value, None);
    let envelope = Json::Array(vec![Json::Bool(false), Json::Null, Json::Unsigned(1)]);
    let (candidate, value) = absorb_parsed(None, Ok(envelope));
    assert_eq!(value, None);
    assert_eq!(
        candidate,
        Some(WorkerMessage { success: false, message: None, data: Some(Json::Unsigned(1)) })
    );
}

#[test]
fn conclude_covers_every_case() {
    let ok = WorkerMessage { success: true, message: None, data: None };
    assert_eq!(conclude(Some(ok), clean_exit()), Ok(String::from("Success")));
    let named = WorkerMessage { success: true, message: Some(String::from("written")), data: None };
    assert_eq!(conclude(Some(named), clean_exit()), Ok(String::from("written")));
    let bad = WorkerMessage { success: false, message: None, data: None };
    assert_eq!(conclude(Some(bad), clean_exit()), Err(WorkerFailure::Worker(String::from("Unknown error"))));
    assert_eq!(conclude(None, clean_exit()), Err(WorkerFailure::Protocol(ProtocolFault::NoFinalResponse)));
    assert_eq!(
        conclude(None, failed_exit("")),
        Err(WorkerFailure::Process { status: String::from("exit status: 1"), stderr: String::new() })
    );
}

#[test]
fn machine_walks_through_its_states() {
    let state = StreamState::Started;
    assert_eq!(state.awaited(), Awaited::Launch);
    let (state, value) = state.step(Event::Launched);
    assert_eq!(state, StreamState::ReadingOutput(None));
    assert_eq!(value, None);
    assert_eq!(state.awaited(), Awaited::Output);
    let (state, value) =
        state.step(Event::Line(String::from(r#"{"success":true,"message":"progress","data":{"progress":10}}"#)));
    assert_eq!(value, Some(Json::Unsigned(10)));
    assert_eq!(state, StreamState::ReadingOutput(None));
    let (state, value) = state.step(Event::Line(String::from(r#"{"success":true,"message":"done"}"#)));
    assert_eq!(value, None);
    assert_eq!(state.awaited(), Awaited::Output);
    let (state, _) = state.step(Event::OutputEnded);
    assert_eq!(state.awaited(), Awaited::Exit);
    let (state, _) = state.step(Event::Exited(clean_exit()));
    assert_eq!(state, StreamState::Succeeded(String::from("done")));
    assert_eq!(state.awaited(), Awaited::Nothing);
    let (state, value) = state.step(Event::Line(String::from(r#"{"success":false}"#)));
    assert_eq!(state, StreamState::Succeeded(String::from("done")));
    assert_eq!(value, None);
}

#[test]
fn machine_fails_on_launch_and_delivery() {
    let (state, _) = StreamState::Started.step(Event::LaunchFailed(String::from("No such file")));
    assert_eq!(state, StreamState::Failed(WorkerFailure::Launch(String::from("No such file"))));
    let (state, _) = StreamState::Started.step(Event::Launched);
    let (state, _) = state.step(Event::DeliveryFailed(String::from("window closed")));
    assert_eq!(state, StreamState::Failed(WorkerFailure::Delivery(String::from("window closed"))));
    assert_eq!(state.awaited(), Awaited::Nothing);
}

#[test]
fn machine_ignores_events_it_does_not_await() {
    let (state, value) = StreamState::Started.step(Event::Line(String::from(r#"{"success":true}"#)));
    assert_eq!(state, StreamState::Started);
    assert_eq!(value, None);
    let (state, _) = StreamState::Started.step(Event::Exited(clean_exit()));
    assert_eq!(state, StreamState::Started);
    let (state, _) = StreamState::ReadingOutput(None).step(Event::Exited(clean_exit()));
    assert_eq!(state, StreamState::ReadingOutput(None));
    let (state, value) = StreamState::OutputClosed(None)
        .step(Event::Line(String::from(r#"{"success":true,"message":"progress","data":{"progress":1}}"#)));
    assert_eq!(state, StreamState::OutputClosed(None));
    assert_eq!(value, None);
}
