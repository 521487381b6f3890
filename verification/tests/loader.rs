use woodpecker::command::Command;
use woodpecker::error::Error;
use woodpecker::loader::{
    classify_line, read_output, shape_matches, LineRead, End, Loader, Output, OutputShape, Parsed, RecordedOutcome,
    WarpCompletion, WarpOutcome,
};

fn header() -> Parsed {
    Parsed::Header { recording_started: true, format_version: 1 }
}

fn footer(outcome: End, recorded_commands: u64) -> Parsed {
    Parsed::Ended { outcome, recorded_commands }
}

fn warp(ticks: u64) -> Command {
    Command::WarpStart { ticks, pace: None }
}

fn completion(requested: u64, executed: u64, outcome: WarpOutcome) -> RecordedOutcome {
    RecordedOutcome::Completed(Output::Warp(WarpCompletion {
        requested_ticks: requested,
        executed_ticks: executed,
        outcome,
    }))
}

fn stop_ack(was_running: bool) -> RecordedOutcome {
    RecordedOutcome::Completed(Output::StopAck { was_running })
}

fn entry(command: Command, outcome: RecordedOutcome) -> Parsed {
    Parsed::Entry { command, outcome }
}

fn load(lines: Vec<Parsed>) -> Result<Vec<Command>, Error> {
    let mut loader = Loader::new();
    for line in lines {
        loader.step("a.jsonl", line)?;
    }
    loader.finish("a.jsonl")
}

fn ticks(plan: &[Command]) -> Vec<Option<u64>> {
    plan.iter()
        .map(|c| match c {
            Command::WarpStart { ticks, .. } => Some(*ticks),
            Command::WarpStop => None,
            other => panic!("unexpected {other:?}"),
        })
        .collect()
}

fn effective_entries() -> Vec<Parsed> {
    vec![
        entry(warp(100), completion(100, 3, WarpOutcome::Stopped)),
        entry(Command::WarpStop, stop_ack(true)),
        entry(warp(10), completion(10, 0, WarpOutcome::Stopped)),
        entry(Command::WarpStop, stop_ack(true)),
        entry(warp(1), completion(1, 1, WarpOutcome::Completed)),
        entry(Command::WarpStop, stop_ack(false)),
        entry(warp(50), RecordedOutcome::Rejected),
        entry(Command::WarpStop, RecordedOutcome::ProtocolFailed),
        entry(Command::WarpStop, RecordedOutcome::IoFailed),
        entry(warp(80), RecordedOutcome::Unanswered),
    ]
}

#[test]
fn outcomes_are_validated_but_not_expectations_and_warps_use_effective_ticks() {
    let mut lines = vec![header()];
    lines.extend(effective_entries());
    lines.push(footer(End::SessionEnded, 10));
    assert_eq!(
        ticks(&load(lines).unwrap()),
        vec![Some(3), Some(1), None, Some(50), None, None, Some(80)]
    );
    let mut lines = vec![header()];
    lines.extend(effective_entries());
    lines.push(footer(End::Stopped, 10));
    assert_eq!(load(lines).unwrap_err().code(), "invalid_recording");
    for (requested, executed, outcome) in [
        (99, 3, WarpOutcome::Stopped),
        (100, 101, WarpOutcome::Stopped),
        (100, 99, WarpOutcome::Completed),
    ] {
        let lines = vec![
            header(),
            entry(warp(100), completion(requested, executed, outcome)),
            footer(End::Stopped, 1),
        ];
        assert!(load(lines).is_err());
    }
}

#[test]
fn effective_warps_also_remove_a_stop_with_a_lost_response_without_losing_footer_checks() {
    for (outcome, unanswered) in [
        (RecordedOutcome::ProtocolFailed, false),
        (RecordedOutcome::IoFailed, false),
        (RecordedOutcome::Unanswered, true),
    ] {
        let entries = |outcome| {
            vec![
                header(),
                entry(warp(100), completion(100, 1, WarpOutcome::Stopped)),
                entry(Command::WarpStop, outcome),
            ]
        };
        let same = || match &outcome {
            RecordedOutcome::ProtocolFailed => RecordedOutcome::ProtocolFailed,
            RecordedOutcome::IoFailed => RecordedOutcome::IoFailed,
            _ => RecordedOutcome::Unanswered,
        };
        let mut ended = entries(same());
        ended.push(footer(End::SessionEnded, 2));
        assert_eq!(ticks(&load(ended).unwrap()), vec![Some(1)]);
        if unanswered {
            let mut stopped = entries(same());
            stopped.push(footer(End::Stopped, 2));
            assert!(load(stopped).is_err());
        }
    }
}

#[test]
fn header_is_validated_before_any_version_specific_content() {
    let error = load(vec![Parsed::Header { recording_started: true, format_version: 2 }]).unwrap_err();
    assert_eq!(error.code(), "unsupported_recording_version");
    assert_eq!(error.message(), "a.jsonl: line 1: version 2");
    let error = load(vec![Parsed::Header { recording_started: false, format_version: 1 }]).unwrap_err();
    assert_eq!(error.message(), "a.jsonl: line 1: expected recording_started");
    let error = load(vec![Parsed::NotJson { message: "expected value".into() }]).unwrap_err();
    assert_eq!(error.message(), "a.jsonl: line 1: expected value");
}

#[test]
fn file_structure_fields_arguments_and_outputs_are_strict() {
    let error = load(vec![header(), footer(End::Stopped, 1)]).unwrap_err();
    assert_eq!(error.message(), "a.jsonl: line 2: recorded_commands does not match");
    let error = load(vec![header(), footer(End::Stopped, 0), footer(End::Stopped, 0)]).unwrap_err();
    assert_eq!(error.message(), "a.jsonl: line 3: data after footer");
    let error = load(vec![header()]).unwrap_err();
    assert_eq!(error.message(), "a.jsonl: line 2: missing complete footer");
    let error = load(vec![header(), entry(Command::ReplayStop, RecordedOutcome::Rejected)]).unwrap_err();
    assert_eq!(error.message(), "a.jsonl: line 2: command is not recordable");
    let error = load(vec![
        header(),
        entry(Command::KeyboardPress { key: "A".into() }, RecordedOutcome::Completed(Output::Invalid)),
    ])
    .unwrap_err();
    assert_eq!(error.message(), "a.jsonl: line 2: output does not match command");
    let error = load(vec![header(), Parsed::Malformed { message: "unknown field x".into() }]).unwrap_err();
    assert_eq!(error.message(), "a.jsonl: line 2: unknown field x");
    let plan = load(vec![
        header(),
        entry(Command::TextInput { text: "Grüße 🦜\n東京".into() }, RecordedOutcome::Completed(Output::Accepted)),
        footer(End::Stopped, 1),
    ])
    .unwrap();
    assert!(matches!(&plan[0], Command::TextInput { text } if text == "Grüße 🦜\n東京"));
}

fn shape(null: bool, was_running: Option<bool>, warp: Option<WarpCompletion>) -> OutputShape {
    OutputShape { null, was_running, warp }
}

#[test]
fn output_shapes_follow_their_commands() {
    let done = WarpCompletion { requested_ticks: 3, executed_ticks: 3, outcome: WarpOutcome::Completed };
    let empty = shape(false, None, None);
    assert!(shape_matches(&warp(3), &shape(false, None, Some(done))));
    assert!(!shape_matches(&warp(3), &empty));
    assert!(shape_matches(&Command::WarpStop, &shape(false, Some(true), None)));
    assert!(!shape_matches(&Command::WarpStop, &shape(true, None, None)));
    let text = Command::TextInput { text: "hi".into() };
    assert!(shape_matches(&text, &shape(true, None, None)));
    assert!(!shape_matches(&text, &empty));
    assert!(!shape_matches(&Command::Shutdown, &empty));
    assert!(shape_matches(&Command::Inspect { query: "{}".into() }, &empty));
    assert!(matches!(read_output(&warp(3), &shape(false, None, Some(done))), Output::Warp(c) if c.executed_ticks == 3));
    assert!(matches!(
        read_output(&Command::WarpStop, &shape(false, Some(false), None)),
        Output::StopAck { was_running: false }
    ));
    assert!(matches!(read_output(&text, &shape(true, None, None)), Output::Accepted));
    assert!(matches!(read_output(&text, &empty), Output::Invalid));
}

#[test]
fn read_failures_include_path_and_line_and_cancellation_is_acknowledged() {
    let loader = Loader::new();
    let error = loader.read_failure("a.jsonl", "injected");
    assert_eq!(error.code(), "io");
    assert!(error.message().contains("a.jsonl: line 1"));
    let mut loader = Loader::new();
    loader.step("a.jsonl", header()).unwrap();
    assert_eq!(loader.read_failure("a.jsonl", "injected").message(), "a.jsonl: line 2: injected");
}

#[test]
fn lines_are_classified_at_their_place() {
    assert!(matches!(classify_line(LineRead::NotObject, false), Parsed::NotJson { message } if message == "expected an object"));
    assert!(matches!(classify_line(LineRead::NotJson("eof".into()), true), Parsed::NotJson { message } if message == "eof"));
    let object = || LineRead::Object {
        header: Ok((true, 1)),
        output_missing: true,
        body: Ok(footer(End::Stopped, 0)),
    };
    assert!(matches!(classify_line(object(), true), Parsed::Header { recording_started: true, format_version: 1 }));
    assert!(matches!(classify_line(object(), false), Parsed::Malformed { message } if message == "missing output"));
    let body = LineRead::Object { header: Err("x".into()), output_missing: false, body: Ok(footer(End::Stopped, 0)) };
    assert!(matches!(classify_line(body, false), Parsed::Ended { recorded_commands: 0, .. }));
    let bad = LineRead::Object { header: Err("x".into()), output_missing: false, body: Err("unknown command x".into()) };
    assert!(matches!(classify_line(bad, false), Parsed::Malformed { message } if message == "unknown command x"));
}
