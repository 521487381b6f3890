use woodpecker::command::Command;
use woodpecker::error::Error;
use woodpecker::replay::{BlockCode, Completion, Notice, Output, Replay};

fn stop() -> Command {
    Command::WarpStop
}

fn warp(ticks: u64) -> Command {
    Command::WarpStart { ticks, pace: None }
}

fn start() -> Command {
    Command::ReplayStart { path: "plan.jsonl".into() }
}

fn running(plan: Vec<Command>) -> Replay {
    let mut replay = Replay::new();
    assert!(!replay.control(1, &start()));
    let (load, notices) = replay.poll(false);
    assert_eq!(load.as_deref(), Some("plan.jsonl"));
    assert!(notices.is_empty());
    replay.loaded(Ok(Some(plan)));
    replay
}

fn submit(replay: &mut Replay, id: u64) -> Command {
    let command = replay.next(false).unwrap();
    replay.submitted(id, &command);
    command
}

fn completion(notices: &[Notice]) -> &Completion {
    match &notices.iter().find(|n| n.id == 1).unwrap().result {
        Ok(Output::Completion(c)) => c,
        other => panic!("expected a completion, got {other:?}"),
    }
}

fn was_running(notice: &Notice) -> bool {
    match &notice.result {
        Ok(Output::Stopped { was_running }) => *was_running,
        other => panic!("expected a stop answer, got {other:?}"),
    }
}

#[test]
fn execution_barriers_preserve_order_and_business_rejections_do_not_block() {
    let mut replay = running(vec![stop(), stop(), warp(1), stop()]);
    assert!(replay.next(true).is_none());
    assert!(matches!(submit(&mut replay, 2), Command::WarpStop));
    assert!(matches!(submit(&mut replay, 3), Command::WarpStop));
    assert!(replay.next(false).is_none());
    replay.terminal(3, &Err(Error::new("business", "rejected".into())));
    assert!(replay.next(false).is_none());
    replay.terminal(2, &Ok(r#"{"was_running":false}"#.into()));
    assert!(matches!(submit(&mut replay, 4), Command::WarpStart { ticks: 1, .. }));
    assert!(replay.next(false).is_none());
    replay.terminal(4, &Ok("{}".into()));
    assert!(matches!(submit(&mut replay, 5), Command::WarpStop));
    assert!(replay.poll(false).1.is_empty());
    replay.terminal(5, &Ok("{}".into()));
    assert!(matches!(completion(&replay.poll(false).1), Completion::Completed));
    assert!(!replay.busy());
}

#[test]
fn stop_waits_for_warp_and_all_stop_responses_in_either_order() {
    for warp_first in [false, true] {
        let mut replay = running(vec![warp(100), stop()]);
        submit(&mut replay, 2);
        replay.control(3, &Command::ReplayStop);
        replay.control(4, &Command::ReplayStop);
        assert!(matches!(submit(&mut replay, 5), Command::WarpStop));
        assert!(replay.next(false).is_none());
        let ids = if warp_first { [2, 5] } else { [5, 2] };
        replay.terminal(ids[0], &Ok("{}".into()));
        assert!(replay.poll(false).1.is_empty());
        replay.terminal(ids[1], &Ok("{}".into()));
        let notices = replay.poll(false).1;
        assert!(matches!(completion(&notices), Completion::Stopped));
        assert_eq!(notices.len(), 3);
        for notice in &notices[1..] {
            assert!(was_running(notice));
        }
        replay.control(6, &Command::ReplayStop);
        assert!(!was_running(&replay.poll(false).1[0]));
    }
}

#[test]
fn preparing_stop_waits_for_loader_ack_and_prior_load_errors_win() {
    for stop_first in [false, true] {
        let mut replay = Replay::new();
        replay.control(1, &start());
        assert!(replay.poll(false).0.is_some());
        if stop_first {
            assert!(replay.control(2, &Command::ReplayStop));
            assert!(replay.poll(false).1.is_empty());
            assert!(replay.busy());
        }
        replay.loaded(Err(Error::new("invalid_recording", "bad file".into())));
        let notices = replay.poll(false).1;
        if stop_first {
            assert!(matches!(completion(&notices), Completion::Stopped));
        } else {
            assert_eq!(notices[0].result.as_ref().unwrap_err().code(), "invalid_recording");
            replay.control(2, &Command::ReplayStop);
            assert!(!was_running(&replay.poll(false).1[0]));
        }
        assert!(!replay.busy());
    }
}

#[test]
fn file_barriers_hold_preparing_and_all_active_phases_reject_another_start() {
    let mut replay = Replay::new();
    replay.control(1, &start());
    let (load, notices) = replay.poll(true);
    assert!(load.is_none() && notices.is_empty());
    assert!(replay.next(false).is_none());
    replay.control(2, &start());
    assert_eq!(replay.poll(true).1[0].result.as_ref().unwrap_err().code(), "replay_already_running");
    replay.control(3, &Command::ReplayStop);
    replay.control(4, &start());
    let notices = replay.poll(true).1;
    assert_eq!(notices[0].result.as_ref().unwrap_err().code(), "replay_already_running");
    assert!(matches!(completion(&notices), Completion::Stopped));
    assert!(!replay.busy());
    let mut replay = running(vec![stop()]);
    replay.control(2, &start());
    assert_eq!(replay.poll(false).1[0].result.as_ref().unwrap_err().code(), "replay_already_running");
}

#[test]
fn stop_drains_non_tick_work_without_issuing_a_warp_stop() {
    let mut replay = running(vec![stop(), stop(), warp(1)]);
    submit(&mut replay, 2);
    submit(&mut replay, 3);
    replay.control(4, &Command::ReplayStop);
    assert!(replay.next(false).is_none());
    replay.terminal(3, &Ok("{}".into()));
    assert!(replay.poll(false).1.is_empty());
    replay.terminal(2, &Err(Error::new("business", "rejected".into())));
    assert!(matches!(completion(&replay.poll(false).1), Completion::Stopped));
}

#[test]
fn technical_errors_block_and_waiting_stops_get_the_cause() {
    let cases = [
        (Error::Protocol { code: "bad".into(), message: "bad".into() }, BlockCode::CommandProtocolFailed, "command_protocol_failed"),
        (Error::io("disk".into()), BlockCode::SessionIoFailed, "session_io_failed"),
        (Error::Ended, BlockCode::SessionEnded, "session_ended"),
    ];
    for (error, block, code) in cases {
        let mut replay = running(vec![stop(), stop(), warp(1)]);
        submit(&mut replay, 2);
        submit(&mut replay, 3);
        replay.control(4, &Command::ReplayStop);
        let expected = error.code().to_string();
        replay.terminal(2, &Err(error));
        assert!(replay.next(false).is_none());
        assert!(replay.poll(false).1.is_empty());
        replay.terminal(3, &Ok("{}".into()));
        let notices = replay.poll(false).1;
        assert!(matches!(completion(&notices), Completion::Blocked { code: actual, .. } if *actual == block));
        assert_eq!(block.code(), code);
        assert_eq!(notices[1].result.as_ref().unwrap_err().code(), expected);
    }
    let mut replay = running(vec![warp(1)]);
    replay.submission_failed(Error::RequestIdExhausted);
    assert!(matches!(
        completion(&replay.poll(false).1),
        Completion::Blocked { code: BlockCode::RequestIdExhausted, .. }
    ));
}

#[test]
fn a_lost_loader_blocks_the_run() {
    let mut replay = Replay::new();
    replay.control(1, &start());
    replay.poll(false);
    replay.loader_lost();
    assert!(matches!(completion(&replay.poll(false).1), Completion::Blocked { code: BlockCode::SessionIoFailed, .. }));
}

#[test]
fn the_end_of_the_session_answers_the_run() {
    let mut replay = running(vec![warp(1)]);
    let (cancel, notices) = replay.end(Error::Ended);
    assert!(!cancel);
    assert!(matches!(completion(&notices), Completion::Blocked { code: BlockCode::SessionEnded, .. }));
    assert!(!replay.busy());
}

#[test]
fn an_empty_plan_completes_at_once() {
    let mut replay = running(vec![]);
    assert!(matches!(completion(&replay.poll(false).1), Completion::Completed));
    assert!(!replay.busy());
}
