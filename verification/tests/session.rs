use woodpecker::command::Command;
use woodpecker::error::Error;
use woodpecker::history::Recorded;
use woodpecker::session::{EndReason, Event, Pending, RequestId, SessionState, EVENT_CAPACITY, HISTORY_CAPACITY};

fn accepted(state: &mut SessionState, id: u64, command: Command) -> Pending {
    let pending = Pending::new(id, command.duplicate());
    state.accept(id, command);
    pending
}

#[test]
fn request_ids_are_plain_numbers() {
    assert_eq!(RequestId::new(7).as_u64(), 7);
    let pending = Pending::new(9, Command::WarpStop);
    assert_eq!(pending.request_id().as_u64(), 9);
    assert!(matches!(pending.command(), Command::WarpStop));
    assert!(!pending.is_consumed());
}

#[test]
fn pending_correlation_history_and_drop() {
    let mut state = SessionState::new();
    let mut first = accepted(&mut state, 1, Command::WarpStop);
    let second = accepted(&mut state, 2, Command::KeyboardPress { key: "A".into() });
    assert_eq!(state.try_receive(&mut first, true).unwrap(), None);
    state.complete(1, Ok(r#"{"was_running":false}"#.into()));
    assert_eq!(
        state.try_receive(&mut first, true).unwrap().as_deref(),
        Some(r#"{"was_running":false}"#)
    );
    assert!(first.is_consumed());
    assert_eq!(state.try_receive(&mut first, true).unwrap_err().code(), "invalid_pending");
    state.drop_pending(second);
    state.complete(2, Err(Error::new("key_not_pressed", "A".into())));
    assert!(!state.has_result(2));
    let history = state.history();
    assert_eq!(history.len(), 2);
    assert!(matches!(&history[0].outcome, Recorded::Completed { output } if output == r#"{"was_running":false}"#));
    assert!(matches!(&history[1].outcome, Recorded::Rejected { code, .. } if code == "key_not_pressed"));
}

#[test]
fn an_answer_of_another_session_is_refused() {
    let mut state = SessionState::new();
    let mut pending = accepted(&mut state, 1, Command::WarpStop);
    state.complete(1, Ok("{}".into()));
    let error = state.try_receive(&mut pending, false).unwrap_err();
    assert_eq!(error.code(), "invalid_pending");
    assert!(state.has_result(1));
}

#[test]
fn the_end_of_the_session_answers_every_wait() {
    let mut state = SessionState::new();
    let mut pending = accepted(&mut state, 1, Command::WarpStop);
    state.end(Some(EndReason::ProcessExit { status: "exit status: 0".into() }));
    assert!(state.is_ended());
    assert_eq!(state.try_receive(&mut pending, true).unwrap_err().code(), "ended");
    assert!(matches!(state.try_receive_event().unwrap(), Some(Event::Ended { .. })));
    assert_eq!(state.try_receive_event().unwrap_err().code(), "ended");
}

#[test]
fn overflow_reserves_exactly_one_end_event() {
    let mut state = SessionState::new();
    let mut reason = None;
    for i in 0..EVENT_CAPACITY + 2 {
        state.push_event(
            &mut reason,
            Event::ProtocolError { code: "invalid_message".into(), message: format!("{i}") },
        );
    }
    assert!(matches!(
        reason,
        Some(EndReason::EventQueueOverflow { capacity: 256, dropped_events: 2 })
    ));
    state.end(reason);
    let mut count = 0;
    let mut ended = 0;
    while let Ok(Some(event)) = state.try_receive_event() {
        count += 1;
        if matches!(event, Event::Ended { .. }) {
            ended += 1;
        }
    }
    assert_eq!((count, ended), (EVENT_CAPACITY + 1, 1));
}

#[test]
fn history_keeps_the_newest_commands() {
    let mut state = SessionState::new();
    for id in 0..(HISTORY_CAPACITY as u64 + 5) {
        state.accept(id, Command::WarpStop);
    }
    let history = state.history();
    assert_eq!(history.len(), HISTORY_CAPACITY);
    state.complete(5, Ok("{}".into()));
    assert!(matches!(state.history()[0].outcome, Recorded::Completed { .. }));
    state.complete(4, Ok("{}".into()));
    assert!(matches!(state.history()[1].outcome, Recorded::Unanswered));
}

#[test]
fn errors_keep_stable_codes() {
    let cases = [
        ("invalid_config", "invalid_config"),
        ("unsupported_feature", "invalid_config"),
        ("launch", "launch"),
        ("io", "io"),
        ("invalid_pending", "invalid_pending"),
        ("request_id_exhausted", "request_id_exhausted"),
        ("shutdown_commands_pending", "shutdown_commands_pending"),
        ("invalid_ready", "invalid_ready"),
        ("ended", "ended"),
        ("anything_else", "anything_else"),
    ];
    for (code, expected) in cases {
        assert_eq!(Error::new(code, "m".into()).code(), expected);
    }
    assert_eq!(Error::ended().message(), "session has ended");
    assert_eq!(Error::io("disk".into()).message(), "disk");
}

#[test]
fn results_that_arrived_survive_the_end() {
    let mut state = SessionState::new();
    let mut pending = accepted(&mut state, 1, Command::WarpStop);
    state.complete(1, Ok("{\"was_running\":false}".into()));
    state.end(None);
    assert_eq!(state.try_receive(&mut pending, true).unwrap(), Some("{\"was_running\":false}".to_string()));
    assert_eq!(state.try_receive(&mut pending, true).unwrap_err().code(), "invalid_pending");
    assert_eq!(state.try_receive_event().unwrap_err().code(), "ended");
}
