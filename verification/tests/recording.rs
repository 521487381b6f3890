use woodpecker::command::Command;
use woodpecker::error::Error;
use woodpecker::history::{record_of, Recorded};
use woodpecker::recording::{path_failure, validate, Notice, Operation, Phase, Recorder, Reply};

fn start(path: &str) -> Command {
    Command::RecordingStart { path: path.into() }
}

fn completion(notices: Vec<Notice>, id: u64) -> Result<String, Error> {
    assert_eq!(notices.len(), 1);
    match notices.into_iter().next().unwrap() {
        Notice::Complete { id: actual, outcome } => {
            assert_eq!(actual, id);
            outcome
        }
        Notice::Event(event) => panic!("unexpected event: {event:?}"),
    }
}

#[test]
fn state_transitions_require_file_acknowledgements() {
    let mut recorder = Recorder::new();
    let operation = recorder.control(1, &start("a.jsonl"), false).unwrap();
    assert!(matches!(operation, Operation::Start(path) if path == "a.jsonl"));
    assert!(recorder.transitioning());
    assert_eq!(
        recorder.control(2, &Command::RecordingStop, false).unwrap_err().code(),
        "recording_transition_in_progress"
    );
    let outcome = completion(recorder.reply(Reply::Started(Ok(()))), 1);
    assert_eq!(outcome.unwrap(), r#"{"path":"a.jsonl"}"#);
    assert!(recorder.busy() && !recorder.transitioning());
    let operation = recorder.control(3, &Command::RecordingStop, false).unwrap();
    assert!(matches!(operation, Operation::Stop));
    assert!(recorder.transitioning());
    assert_eq!(
        recorder.control(4, &start("b.jsonl"), false).unwrap_err().code(),
        "recording_transition_in_progress"
    );
    let outcome = completion(recorder.reply(Reply::Stopped(Ok(0))), 3);
    assert_eq!(outcome.unwrap(), r#"{"path":"a.jsonl","recorded_commands":0}"#);
    assert!(!recorder.busy());
}

#[test]
fn recording_paths_are_normalized_relative_jsonl_paths() {
    for path in ["", "/a.jsonl", "a//b.jsonl", "../a.jsonl", "a.json", "C:/a.jsonl", "a\\b.jsonl"] {
        let error = validate(path).unwrap_err();
        assert_eq!(error.code(), "invalid_recording_path", "{path}");
        assert_eq!(error.message(), path);
    }
    assert!(validate("runs/é.jsonl").is_ok());
    let mut recorder = Recorder::new();
    assert_eq!(
        recorder.control(1, &start("../x.jsonl"), false).unwrap_err().code(),
        "invalid_recording_path"
    );
    assert!(matches!(recorder.phase(), Phase::Idle));
}

#[test]
fn start_and_stop_need_the_right_phase_and_no_pending_commands() {
    let mut recorder = Recorder::new();
    assert_eq!(
        recorder.control(1, &Command::RecordingStop, false).unwrap_err().code(),
        "recording_not_active"
    );
    assert_eq!(
        recorder.control(2, &start("a.jsonl"), true).unwrap_err().code(),
        "recording_commands_pending"
    );
    recorder.control(3, &start("a.jsonl"), false).unwrap();
    completion(recorder.reply(Reply::Started(Ok(()))), 3).unwrap();
    assert_eq!(
        recorder.control(4, &start("b.jsonl"), false).unwrap_err().code(),
        "recording_already_active"
    );
    assert_eq!(
        recorder.control(5, &Command::RecordingStop, true).unwrap_err().code(),
        "recording_commands_pending"
    );
}

#[test]
fn failed_start_returns_to_idle_with_the_worker_error() {
    let mut recorder = Recorder::new();
    recorder.control(1, &start("a.jsonl"), false).unwrap();
    let outcome = completion(recorder.reply(Reply::Started(Err(Error::io("denied".into())))), 1);
    assert_eq!(outcome.unwrap_err().code(), "io");
    assert!(!recorder.busy());
}

#[test]
fn the_started_output_quotes_the_path_as_json() {
    let mut recorder = Recorder::new();
    recorder.control(1, &start("say \"hi\".jsonl"), false).unwrap();
    let outcome = completion(recorder.reply(Reply::Started(Ok(()))), 1);
    assert_eq!(outcome.unwrap(), r#"{"path":"say \"hi\".jsonl"}"#);
}

#[test]
fn outcomes_are_released_in_acceptance_order() {
    let mut recorder = Recorder::new();
    recorder.control(1, &start("a.jsonl"), false).unwrap();
    completion(recorder.reply(Reply::Started(Ok(()))), 1).unwrap();
    recorder.record(2, &Command::WarpStop);
    recorder.record(3, &Command::KeyboardPress { key: "A".into() });
    assert!(recorder.terminal(3, &Ok("null".into())).is_none());
    match recorder.terminal(2, &Err(Error::new("rejected_code", "no".into()))) {
        Some(Operation::Append(lines)) => {
            assert_eq!(lines.len(), 2);
            assert!(matches!(lines[0].command, Command::WarpStop));
            assert!(matches!(lines[0].outcome, Recorded::Rejected { .. }));
            assert!(matches!(lines[1].command, Command::KeyboardPress { .. }));
            assert!(matches!(&lines[1].outcome, Recorded::Completed { output } if output == "null"));
        }
        other => panic!("expected an append, got {other:?}"),
    }
}

#[test]
fn the_end_of_a_session_persists_unanswered_commands() {
    let mut recorder = Recorder::new();
    recorder.control(1, &start("a.jsonl"), false).unwrap();
    completion(recorder.reply(Reply::Started(Ok(()))), 1).unwrap();
    recorder.record(2, &Command::WarpStop);
    match recorder.end() {
        Operation::End(lines) => {
            assert_eq!(lines.len(), 1);
            assert!(matches!(lines[0].outcome, Recorded::Unanswered));
        }
        other => panic!("expected the end, got {other:?}"),
    }
}

#[test]
fn a_failed_active_recording_is_reported_once_as_an_event() {
    let mut recorder = Recorder::new();
    recorder.control(1, &start("a.jsonl"), false).unwrap();
    completion(recorder.reply(Reply::Started(Ok(()))), 1).unwrap();
    let notices = recorder.reply(Reply::Failed { path: "a.jsonl".into(), message: "disk full".into() });
    assert_eq!(notices.len(), 1);
    assert!(matches!(&notices[0], Notice::Event(woodpecker::session::Event::RecordingFailed { path, message })
        if path == "a.jsonl" && message == "disk full"));
    assert!(!recorder.busy());
}

#[test]
fn persisted_outcome_shapes_keep_unicode_and_distinguish_technical_errors() {

    assert!(matches!(record_of(Some(&Ok("\"Grüße 🦜\"".into()))), Recorded::Completed { output } if output == "\"Grüße 🦜\""));
    assert!(matches!(
        record_of(Some(&Err(Error::new("text_focus_unavailable", "focus".into())))),
        Recorded::Rejected { code, message } if code == "text_focus_unavailable" && message == "focus"
    ));
    assert!(matches!(
        record_of(Some(&Err(Error::new("invalid_response", "response".into())))),
        Recorded::ProtocolFailed { code, message } if code == "invalid_response" && message == "response"
    ));
    assert!(matches!(record_of(Some(&Err(Error::io("disk".into())))), Recorded::IoFailed { message } if message == "disk"));
    assert!(matches!(record_of(Some(&Err(Error::ended()))), Recorded::Unanswered));
    assert!(matches!(record_of(None), Recorded::Unanswered));
}

#[test]
fn control_characters_in_a_path_are_escaped_as_json() {
    let mut recorder = Recorder::new();
    recorder.control(1, &start("a\u{1}\t\u{7f}é.jsonl"), false).unwrap();
    let outcome = completion(recorder.reply(Reply::Started(Ok(()))), 1);
    assert_eq!(outcome.unwrap(), "{\"path\":\"a\\u0001\\t\u{7f}é.jsonl\"}");
}

#[test]
fn links_in_a_recording_path_make_it_invalid() {
    let linked = path_failure(true, "a/b.jsonl", "too many levels of symbolic links");
    assert_eq!(linked.code(), "invalid_recording_path");
    assert_eq!(linked.message(), "a/b.jsonl: too many levels of symbolic links");
    let other = path_failure(false, "a/b.jsonl", "permission denied");
    assert_eq!(other.code(), "io");
    assert_eq!(other.message(), "a/b.jsonl: permission denied");
}
