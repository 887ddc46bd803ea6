use track_worker::failure::WorkerFailure;
use track_worker::json::Json;
use track_worker::lines::split_lines;
use track_worker::replay::replay_output;
use track_worker::stream::ExitReport;

fn lines_of_std(text: &str) -> Vec<String> {
    text.lines().map(String::from).collect()
}

#[test]
fn split_lines_cuts_at_line_feeds() {
    assert_eq!(split_lines("a\nb\nc"), vec!["a", "b", "c"]);
    assert_eq!(split_lines("a\nb\n"), vec!["a", "b"]);
    assert_eq!(split_lines(""), Vec::<String>::new());
    assert_eq!(split_lines("\n"), vec![""]);
    assert_eq!(split_lines("\n\n"), vec!["", ""]);
    assert_eq!(split_lines("one"), vec!["one"]);
}

#[test]
fn split_lines_drops_a_carriage_return_before_a_line_feed() {
    assert_eq!(split_lines("a\r\nb\r\n"), vec!["a", "b"]);
    assert_eq!(split_lines("a\r"), vec!["a\r"]);
    assert_eq!(split_lines("a\rb\n"), vec!["a\rb"]);
    assert_eq!(split_lines("\r\n"), vec![""]);
    assert_eq!(split_lines("a\r\r\n"), vec!["a\r"]);
}

#[test]
fn split_lines_agrees_with_std() {
    let samples = [
        "",
        "\n",
        "\r",
        "\r\n",
        "a",
        "a\n",
        "a\r\n\r\nb",
        "\n\na\n\n",
        "größe\nДа\r\n日本語",
        "{\"success\":true}\n{\"success\":false}\n",
        "x\r\ny\rz\n\r",
    ];
    for sample in samples {
        assert_eq!(split_lines(sample), lines_of_std(sample));
    }
}

#[test]
fn recorded_output_resolves_to_done() {
    let output = "{\"success\":true,\"message\":\"progress\",\"data\":{\"progress\":10}}\n\
                  {\"success\":true,\"message\":\"progress\",\"data\":{\"progress\":55}}\n\
                  {\"success\":true,\"message\":\"done\",\"data\":null}\n";
    let exit = ExitReport { success: true, status: String::from("exit status: 0"), stderr: String::new() };
    let got = replay_output(output, exit);
    assert_eq!(got.progress, vec![Json::Unsigned(10), Json::Unsigned(55)]);
    assert_eq!(got.outcome, Ok(String::from("done")));
}

#[test]
fn recorded_output_with_failed_exit_reports_error_stream() {
    let output = "{\"success\":true,\"message\":\"progress\",\"data\":{\"progress\":10}}\r\n\
                  {\"success\":true,\"message\":\"done\",\"data\":null}";
    let exit = ExitReport {
        success: false,
        status: String::from("exit status: 1"),
        stderr: String::from("ffmpeg crashed"),
    };
    let got = replay_output(output, exit);
    assert_eq!(got.progress, vec![Json::Unsigned(10)]);
    assert_eq!(
        got.outcome,
        Err(WorkerFailure::Process {
            status: String::from("exit status: 1"),
            stderr: String::from("ffmpeg crashed"),
        })
    );
}

#[test]
fn recorded_output_replays_alike() {
    let output = "noise\n{\"success\":true,\"message\":\"progress\",\"data\":{\"progress\":1.25}}\n[true,\"ok\",null]\n";
    let exit = || ExitReport { success: true, status: String::from("exit status: 0"), stderr: String::new() };
    let first = replay_output(output, exit());
    let second = replay_output(output, exit());
    assert_eq!(first, second);
    assert_eq!(first.progress, vec![Json::Real(String::from("1.25"))]);
    assert_eq!(first.outcome, Ok(String::from("ok")));
}
