//! The replay state machine: loading, execution barriers and stop handling.
//! It never allots request identifiers or writes to the game; it tells the
//! session which command to issue next and learns how each one ended.
use vstd::prelude::*;
use std::collections::{BTreeMap, VecDeque};
use crate::command::Command;
use crate::error::{Error, ErrorView};
use crate::history::{Outcome, duplicate_outcome};

verus! {

broadcast use {vstd::std_specs::btree::group_btree_axioms, vstd::laws_cmp::group_laws_cmp};

/// Why a replay stopped issuing commands early.
#[derive(Debug, PartialEq, Eq, Structural, Clone, Copy)]
pub enum BlockCode {
    SessionIoFailed,
    CommandProtocolFailed,
    SessionEnded,
    RequestIdExhausted,
    StopFailed,
}

impl BlockCode {
    /// The stable code of the cause.
    pub fn code(&self) -> (r: &'static str)
        ensures
            r@ == block_code_name(*self),
    {
        match self {
            BlockCode::SessionIoFailed => "session_io_failed",
            BlockCode::CommandProtocolFailed => "command_protocol_failed",
            BlockCode::SessionEnded => "session_ended",
            BlockCode::RequestIdExhausted => "request_id_exhausted",
            BlockCode::StopFailed => "stop_failed",
        }
    }
}

/// The stable code of a blocking cause.
pub open spec fn block_code_name(c: BlockCode) -> Seq<char> {
    match c {
        BlockCode::SessionIoFailed => "session_io_failed"@,
        BlockCode::CommandProtocolFailed => "command_protocol_failed"@,
        BlockCode::SessionEnded => "session_ended"@,
        BlockCode::RequestIdExhausted => "request_id_exhausted"@,
        BlockCode::StopFailed => "stop_failed"@,
    }
}

/// How a replay ended.
#[derive(Debug)]
pub enum Completion {
    Blocked { code: BlockCode, message: String },
    Stopped,
    Completed,
}

/// The output of a replay control.
#[derive(Debug)]
pub enum Output {
    /// The answer to a replay start, once the replay is over.
    Completion(Completion),
    /// The answer to a replay stop.
    Stopped { was_running: bool },
}

/// The answer to one replay control request.
#[derive(Debug)]
pub struct Notice {
    pub id: u64,
    pub result: Result<Output, Error>,
}

/// Where a run stands.
#[derive(Debug)]
pub enum Stage {
    Waiting(String),
    Preparing,
    Running(VecDeque<Command>),
}

/// Where a run stands, as a mathematical value.
pub enum StageView {
    Waiting(Seq<char>),
    Preparing,
    Running(Seq<Command>),
}

/// A replay run, as a mathematical value.
pub struct RunView {
    /// The request that started the run; it is answered when the run is over.
    pub start: u64,
    pub stage: StageView,
    /// Whether a stop was requested.
    pub stopping: bool,
    /// Stop requests answered when the run is over, in arrival order.
    pub stops: Seq<u64>,
    /// Issued commands without an outcome; `true` marks a stop issued to end a warp.
    pub pending: Map<u64, bool>,
    /// The issued warp that is still running.
    pub warp: Option<u64>,
    /// Whether a stop for the running warp was issued.
    pub stop_sent: bool,
    /// The first cause that blocked the run.
    pub blocked: Option<(BlockCode, Error)>,
}

struct Run {
    start: u64,
    stage: Stage,
    stopping: bool,
    stops: Vec<u64>,
    pending: BTreeMap<u64, bool>,
    warp: Option<u64>,
    stop_sent: bool,
    blocked: Option<(BlockCode, Error)>,
}

impl Run {
    spec fn view(&self) -> RunView {
        RunView {
            start: self.start,
            stage: match self.stage {
                Stage::Waiting(p) => StageView::Waiting(p@),
                Stage::Preparing => StageView::Preparing,
                Stage::Running(plan) => StageView::Running(plan@),
            },
            stopping: self.stopping,
            stops: self.stops@,
            pending: self.pending@,
            warp: self.warp,
            stop_sent: self.stop_sent,
            blocked: self.blocked,
        }
    }
}

/// Whether `n` answers a request with an error.
pub open spec fn notice_error(n: Notice, id: u64, e: ErrorView) -> bool {
    n.id == id && n.result is Err && n.result->Err_0@ == e
}

/// Whether a blocking cause has the given code and error.
pub open spec fn blocked_is(blocked: Option<(BlockCode, Error)>, code: BlockCode, e: ErrorView) -> bool {
    match blocked {
        Some((c, x)) => c == code && x@ == e,
        None => false,
    }
}

/// Whether a blocking cause has the given code and an error with the given message.
pub open spec fn blocked_matches(
    blocked: Option<(BlockCode, Error)>,
    code: BlockCode,
    message: Seq<char>,
) -> bool {
    match blocked {
        Some((c, e)) => c == code && e@.message() == message,
        None => false,
    }
}

/// Whether the answers added when a run is over are the right ones: first the
/// start, with how the run ended, then each stop in order, with the blocking
/// error where there was one and otherwise as having stopped a running replay.
pub open spec fn finish_notices(run: RunView, added: Seq<Notice>) -> bool {
    &&& added.len() == 1 + run.stops.len()
    &&& added[0].id == run.start
    &&& added[0].result is Ok
    &&& added[0].result->Ok_0 is Completion
    &&& match added[0].result->Ok_0->Completion_0 {
        Completion::Blocked { code, message } => blocked_matches(run.blocked, code, message@),
        Completion::Stopped => run.blocked is None && run.stopping,
        Completion::Completed => run.blocked is None && !run.stopping,
    }
    &&& forall|i: int|
        0 <= i < run.stops.len() ==> {
            &&& (#[trigger] added[i + 1]).id == run.stops[i]
            &&& match run.blocked {
                Some((_, e)) => added[i + 1].result == Err::<Output, Error>(e),
                None => added[i + 1].result == Ok::<Output, Error>(
                    Output::Stopped { was_running: true },
                ),
            }
        }
}

/// The run with a blocking cause recorded unless an earlier one is.
pub open spec fn blocked_with(run: RunView, code: BlockCode, e: Error) -> RunView {
    if run.blocked is Some {
        run
    } else {
        RunView { blocked: Some((code, e)), ..run }
    }
}

/// Whether the run has nothing more to issue or wait for.
pub open spec fn run_over(run: RunView) -> bool {
    &&& run.stage is Running
    &&& (run.stage->Running_0.len() == 0 || run.stopping || run.blocked is Some)
    &&& run.pending.is_empty()
}

/// The cause that an error of an issued command blocks a run with, if any: a
/// business rejection of a planned command does not block.
pub open spec fn terminal_block(e: ErrorView, stop: bool) -> Option<BlockCode> {
    match e {
        ErrorView::Rejected { .. } => if stop {
            Some(BlockCode::StopFailed)
        } else {
            None
        },
        ErrorView::Protocol { .. } => if stop {
            Some(BlockCode::StopFailed)
        } else {
            Some(BlockCode::CommandProtocolFailed)
        },
        ErrorView::Io { .. } => Some(BlockCode::SessionIoFailed),
        ErrorView::Ended => Some(BlockCode::SessionEnded),
        ErrorView::RequestIdExhausted => Some(BlockCode::RequestIdExhausted),
        _ => Some(BlockCode::StopFailed),
    }
}

/// The run once the issued command `id` has its outcome: it is no longer
/// pending and, if it was the running warp, no warp runs.
pub open spec fn settled(run: RunView, id: u64) -> RunView {
    RunView {
        pending: run.pending.remove(id),
        warp: if run.warp == Some(id) {
            None
        } else {
            run.warp
        },
        ..run
    }
}

/// The run once the issued commands `ids` have succeeded, in that order.
pub open spec fn settled_all(run: RunView, ids: Seq<u64>) -> RunView
    decreases ids.len(),
{
    if ids.len() == 0 {
        run
    } else {
        settled(settled_all(run, ids.drop_last()), ids.last())
    }
}

/// A run after its waiting step: a stop turns waiting into an empty run, and
/// without a file barrier waiting turns into loading.
pub open spec fn after_waiting(run: RunView, file_barrier: bool) -> RunView {
    if run.stage is Waiting {
        if run.stopping {
            RunView { stage: StageView::Running(seq![]), ..run }
        } else if !file_barrier {
            RunView { stage: StageView::Preparing, ..run }
        } else {
            run
        }
    } else {
        run
    }
}

fn to_deque(v: Vec<Command>) -> (d: VecDeque<Command>)
    ensures
        d@ == v@,
{
    let ghost v0 = v@;
    let mut v = v;
    let mut d: VecDeque<Command> = VecDeque::new();
    while v.len() > 0
        invariant
            v0.len() == v@.len() + d@.len(),
            v@ == v0.subrange(0, v@.len() as int),
            d@ == v0.subrange(v@.len() as int, v0.len() as int),
        decreases v@.len(),
    {
        let ghost n = v@.len();
        let c = v.pop().unwrap();
        d.push_front(c);
        assert(d@ =~= v0.subrange(n - 1, v0.len() as int));
        assert(v@ =~= v0.subrange(0, n - 1));
    }
    assert(d@ =~= v0);
    d
}

/// The replay state of a session.
pub struct Replay {
    run: Option<Run>,
    notices: Vec<Notice>,
}

fn finish_run(run: Run, notices: &mut Vec<Notice>)
    ensures
        final(notices)@.len() == old(notices)@.len() + 1 + run.stops@.len(),
        final(notices)@.subrange(0, old(notices)@.len() as int) == old(notices)@,
        finish_notices(
            run.view(),
            final(notices)@.subrange(old(notices)@.len() as int, final(notices)@.len() as int),
        ),
{
    let ghost n0 = notices@.len();
    let completion = match &run.blocked {
        Some((code, error)) => Completion::Blocked {
            code: *code,
            message: String::from_str(error.message()),
        },
        None => if run.stopping {
            Completion::Stopped
        } else {
            Completion::Completed
        },
    };
    notices.push(Notice { id: run.start, result: Ok(Output::Completion(completion)) });
    let mut i: usize = 0;
    while i < run.stops.len()
        invariant
            i <= run.stops@.len(),
            notices@.len() == n0 + 1 + i,
            notices@.subrange(0, n0 as int) == old(notices)@,
            notices@[n0 as int].id == run.start,
            notices@[n0 as int].result is Ok,
            notices@[n0 as int].result->Ok_0 is Completion,
            match notices@[n0 as int].result->Ok_0->Completion_0 {
                Completion::Blocked { code, message } => blocked_matches(run.blocked, code, message@),
                Completion::Stopped => run.blocked is None && run.stopping,
                Completion::Completed => run.blocked is None && !run.stopping,
            },
            forall|k: int|
                0 <= k < i ==> {
                    &&& (#[trigger] notices@[n0 + 1 + k]).id == run.stops@[k]
                    &&& match run.blocked {
                        Some((_, e)) => notices@[n0 + 1 + k].result == Err::<Output, Error>(e),
                        None => notices@[n0 + 1 + k].result == Ok::<Output, Error>(
                            Output::Stopped { was_running: true },
                        ),
                    }
                },
        decreases run.stops@.len() - i,
    {
        let result = match &run.blocked {
            Some((_, error)) => Err(error.duplicate()),
            None => Ok(Output::Stopped { was_running: true }),
        };
        notices.push(Notice { id: run.stops[i], result });
        i = i + 1;
    }
    let ghost added = notices@.subrange(n0 as int, notices@.len() as int);
    assert forall|k: int| 0 <= k < run.stops@.len() implies (#[trigger] added[k + 1]).id
        == run.stops@[k] by {
        assert(added[k + 1] == notices@[n0 + 1 + k]);
    }
    assert forall|k: int| 0 <= k < run.stops@.len() implies match run.blocked {
        Some((_, e)) => (#[trigger] added[k + 1]).result == Err::<Output, Error>(e),
        None => added[k + 1].result == Ok::<Output, Error>(Output::Stopped { was_running: true }),
    } by {
        assert(added[k + 1] == notices@[n0 + 1 + k]);
    }
    assert(added[0] == notices@[n0 as int]);
}

impl Replay {
    /// The current run, if any.
    pub closed spec fn run_spec(&self) -> Option<RunView> {
        match self.run {
            Some(r) => Some(r.view()),
            None => None,
        }
    }

    /// Answers not yet handed out.
    pub closed spec fn notices_spec(&self) -> Seq<Notice> {
        self.notices@
    }

    /// A replay state without a run.
    pub fn new() -> (r: Replay)
        ensures
            r.run_spec() is None,
            r.notices_spec().len() == 0,
    {
        Replay { run: None, notices: Vec::new() }
    }

    /// Whether a run exists.
    pub fn busy(&self) -> (r: bool)
        ensures
            r == self.run_spec() is Some,
    {
        self.run.is_some()
    }

    /// Whether an issued command of the run has no outcome yet.
    pub fn owns(&self, id: u64) -> (r: bool)
        ensures
            r == (self.run_spec() is Some && self.run_spec()->0.pending.contains_key(id)),
    {
        match &self.run {
            Some(run) => run.pending.contains_key(&id),
            None => false,
        }
    }

    /// Handles a replay start or stop. A start while a run exists is rejected; a
    /// stop without a run is answered at once; a stop during a run is answered
    /// when it is over. Returns whether a running file load must be cancelled.
    pub fn control(&mut self, id: u64, command: &Command) -> (cancel: bool)
        requires
            command is ReplayStart || command is ReplayStop,
        ensures
            match *command {
                Command::ReplayStart { path } => {
                    &&& !cancel
                    &&& match old(self).run_spec() {
                        Some(run) => {
                            &&& final(self).run_spec() == old(self).run_spec()
                            &&& final(self).notices_spec().len() == old(self).notices_spec().len()
                                + 1
                            &&& final(self).notices_spec().drop_last() == old(self).notices_spec()
                            &&& notice_error(
                                final(self).notices_spec().last(),
                                id,
                                ErrorView::Rejected {
                                    code: "replay_already_running"@,
                                    message: "replay is active"@,
                                },
                            )
                        },
                        None => {
                            &&& final(self).notices_spec() == old(self).notices_spec()
                            &&& final(self).run_spec() == Some(
                                RunView {
                                    start: id,
                                    stage: StageView::Waiting(path@),
                                    stopping: false,
                                    stops: seq![],
                                    pending: Map::empty(),
                                    warp: None,
                                    stop_sent: false,
                                    blocked: None,
                                },
                            )
                        },
                    }
                },
                _ => match old(self).run_spec() {
                    Some(run) => {
                        &&& cancel == run.stage is Preparing
                        &&& final(self).notices_spec() == old(self).notices_spec()
                        &&& final(self).run_spec() == Some(
                            RunView { stopping: true, stops: run.stops.push(id), ..run },
                        )
                    },
                    None => {
                        &&& !cancel
                        &&& final(self).run_spec() is None
                        &&& final(self).notices_spec() == old(self).notices_spec().push(
                            Notice { id, result: Ok(Output::Stopped { was_running: false }) },
                        )
                    },
                },
            },
    {
        match command {
            Command::ReplayStart { path } => {
                if self.run.is_some() {
                    self.notices.push(
                        Notice {
                            id,
                            result: Err(
                                Error::Rejected {
                                    code: String::from_str("replay_already_running"),
                                    message: String::from_str("replay is active"),
                                },
                            ),
                        },
                    );
                    return false;
                }
                self.run = Some(
                    Run {
                        start: id,
                        stage: Stage::Waiting(path.clone()),
                        stopping: false,
                        stops: Vec::new(),
                        pending: BTreeMap::new(),
                        warp: None,
                        stop_sent: false,
                        blocked: None,
                    },
                );
                false
            },
            _ => {
                match &mut self.run {
                    Some(run) => {
                        run.stopping = true;
                        run.stops.push(id);
                        matches!(run.stage, Stage::Preparing)
                    },
                    None => {
                        self.notices.push(
                            Notice { id, result: Ok(Output::Stopped { was_running: false }) },
                        );
                        false
                    },
                }
            },
        }
    }

    fn finish(&mut self)
        requires
            old(self).run_spec() is Some,
        ensures
            final(self).run_spec() is None,
            final(self).notices_spec().len() == old(self).notices_spec().len() + 1
                + old(self).run_spec()->0.stops.len(),
            final(self).notices_spec().subrange(0, old(self).notices_spec().len() as int)
                == old(self).notices_spec(),
            finish_notices(
                old(self).run_spec()->0,
                final(self).notices_spec().subrange(
                    old(self).notices_spec().len() as int,
                    final(self).notices_spec().len() as int,
                ),
            ),
    {
        let mut taken: Option<Run> = None;
        std::mem::swap(&mut taken, &mut self.run);
        match taken {
            Some(run) => finish_run(run, &mut self.notices),
            None => {},
        }
    }

    fn drain(&mut self) -> (r: Vec<Notice>)
        ensures
            r@ == old(self).notices_spec(),
            final(self).notices_spec().len() == 0,
            final(self).run_spec() == old(self).run_spec(),
    {
        let mut out: Vec<Notice> = Vec::new();
        std::mem::swap(&mut out, &mut self.notices);
        out
    }

    fn is_over(&self) -> (r: bool)
        ensures
            r == (self.run_spec() is Some && run_over(self.run_spec()->0)),
    {
        match &self.run {
            Some(run) => match &run.stage {
                Stage::Running(plan) => (plan.len() == 0 || run.stopping || run.blocked.is_some())
                    && run.pending.is_empty(),
                _ => false,
            },
            None => false,
        }
    }

    /// Advances a run: a waiting run loads its file once no recording file work
    /// is pending, or gives up loading when a stop came first; a run with nothing
    /// more to do is over and answers its requests. Returns the file to load, if
    /// one must be loaded now, and every answer due.
    pub fn poll(&mut self, file_barrier: bool) -> (r: (Option<String>, Vec<Notice>))
        ensures
            final(self).notices_spec().len() == 0,
            match old(self).run_spec() {
                None => {
                    &&& r.0 is None
                    &&& r.1@ == old(self).notices_spec()
                    &&& final(self).run_spec() is None
                },
                Some(run) => {
                    let r1 = after_waiting(run, file_barrier);
                    &&& match r.0 {
                        Some(path) => run.stage is Waiting && !run.stopping && !file_barrier
                            && path@ == run.stage->Waiting_0,
                        None => !(run.stage is Waiting && !run.stopping && !file_barrier),
                    }
                    &&& if run_over(r1) {
                        &&& final(self).run_spec() is None
                        &&& r.1@.len() == old(self).notices_spec().len() + 1 + r1.stops.len()
                        &&& r.1@.subrange(0, old(self).notices_spec().len() as int)
                            == old(self).notices_spec()
                        &&& finish_notices(
                            r1,
                            r.1@.subrange(old(self).notices_spec().len() as int, r.1@.len() as int),
                        )
                    } else {
                        &&& final(self).run_spec() == Some(r1)
                        &&& r.1@ == old(self).notices_spec()
                    }
                },
            },
    {
        let mut load: Option<String> = None;
        match &mut self.run {
            Some(run) => {
                if matches!(run.stage, Stage::Waiting(_)) {
                    if run.stopping {
                        run.stage = Stage::Running(VecDeque::new());
                    } else if !file_barrier {
                        let mut stage = Stage::Preparing;
                        std::mem::swap(&mut stage, &mut run.stage);
                        match stage {
                            Stage::Waiting(path) => {
                                load = Some(path);
                            },
                            _ => {},
                        }
                    }
                }
            },
            None => {},
        }
        if self.is_over() {
            self.finish();
        }
        let out = self.drain();
        (load, out)
    }

    /// Takes the result of a file load. A stop that came first turns any result,
    /// a failure too, into the end of the run; otherwise a plan starts running
    /// and a failure answers the start and ends the run.
    pub fn loaded(&mut self, result: Result<Option<Vec<Command>>, Error>)
        requires
            old(self).run_spec() is Some,
            old(self).run_spec()->0.stage is Preparing,
            !old(self).run_spec()->0.stopping ==> !(result is Ok && result->Ok_0 is None),
        ensures
            ({
                let run = old(self).run_spec()->0;
                if run.stopping {
                    &&& final(self).run_spec() == Some(
                        RunView { stage: StageView::Running(seq![]), ..run },
                    )
                    &&& final(self).notices_spec() == old(self).notices_spec()
                } else {
                    match result {
                        Ok(plan) => {
                            &&& final(self).run_spec() == Some(
                                RunView { stage: StageView::Running(plan->0@), ..run },
                            )
                            &&& final(self).notices_spec() == old(self).notices_spec()
                        },
                        Err(e) => {
                            &&& final(self).run_spec() is None
                            &&& final(self).notices_spec() == old(self).notices_spec().push(
                                Notice { id: run.start, result: Err(e) },
                            )
                        },
                    }
                }
            }),
    {
        let mut failed: Option<(u64, Error)> = None;
        match &mut self.run {
            Some(run) => {
                if run.stopping {
                    run.stage = Stage::Running(VecDeque::new());
                } else {
                    match result {
                        Ok(Some(plan)) => {
                            run.stage = Stage::Running(to_deque(plan));
                        },
                        Ok(None) => {},
                        Err(e) => {
                            failed = Some((run.start, e));
                        },
                    }
                }
            },
            None => {},
        }
        match failed {
            Some((id, e)) => {
                self.run = None;
                self.notices.push(Notice { id, result: Err(e) });
            },
            None => {},
        }
    }

    /// The file load ended without a result: the run is blocked by an
    /// input/output failure and has nothing to execute.
    pub fn loader_lost(&mut self)
        requires
            old(self).run_spec() is Some,
            old(self).run_spec()->0.stage is Preparing,
        ensures
            final(self).notices_spec() == old(self).notices_spec(),
            final(self).run_spec() is Some,
            ({
                let run = old(self).run_spec()->0;
                let now = final(self).run_spec()->0;
                &&& now.stage == StageView::Running(seq![])
                &&& now.start == run.start
                &&& now.stopping == run.stopping
                &&& now.stops == run.stops
                &&& now.pending == run.pending
                &&& now.warp == run.warp
                &&& now.stop_sent == run.stop_sent
                &&& if run.blocked is Some {
                    now.blocked == run.blocked
                } else {
                    &&& blocked_is(now.blocked, BlockCode::SessionIoFailed, ErrorView::Io {
                        message: "replay loader disconnected"@,
                    })
                }
            }),
    {
        self.block(
            BlockCode::SessionIoFailed,
            Error::Io { message: String::from_str("replay loader disconnected") },
        );
        match &mut self.run {
            Some(run) => {
                run.stage = Stage::Running(VecDeque::new());
            },
            None => {},
        }
    }

    /// Records the first cause that blocks the current run.
    pub fn block(&mut self, code: BlockCode, error: Error)
        ensures
            final(self).notices_spec() == old(self).notices_spec(),
            final(self).run_spec() == match old(self).run_spec() {
                Some(run) => Some(blocked_with(run, code, error)),
                None => None,
            },
    {
        match &mut self.run {
            Some(run) => {
                if run.blocked.is_none() {
                    run.blocked = Some((code, error));
                }
            },
            None => {},
        }
    }

    /// The next command to issue, if any. A stopping or blocked run issues at
    /// most one stop for its running warp. Otherwise a running plan issues its
    /// next command only when no earlier outside work is pending, no warp is
    /// running, and, for a warp, no issued command is still pending.
    pub fn next(&mut self, earlier_pending: bool) -> (r: Option<Command>)
        ensures
            final(self).notices_spec() == old(self).notices_spec(),
            match old(self).run_spec() {
                None => r is None && final(self).run_spec() is None,
                Some(run) => if run.stopping || run.blocked is Some {
                    if run.warp is Some && !run.stop_sent {
                        &&& r == Some(Command::WarpStop)
                        &&& final(self).run_spec() == Some(RunView { stop_sent: true, ..run })
                    } else {
                        r is None && final(self).run_spec() == Some(run)
                    }
                } else {
                    match run.stage {
                        StageView::Running(plan) => if earlier_pending || run.warp is Some || (
                        plan.len() > 0 && plan[0] is WarpStart && !run.pending.is_empty()) || plan.len()
                            == 0 {
                            r is None && final(self).run_spec() == Some(run)
                        } else {
                            &&& r == Some(plan[0])
                            &&& final(self).run_spec() == Some(
                                RunView { stage: StageView::Running(plan.drop_first()), ..run },
                            )
                        },
                        _ => r is None && final(self).run_spec() == Some(run),
                    }
                },
            },
    {
        match &mut self.run {
            None => None,
            Some(run) => {
                if run.stopping || run.blocked.is_some() {
                    if run.warp.is_some() && !run.stop_sent {
                        run.stop_sent = true;
                        return Some(Command::WarpStop);
                    }
                    return None;
                }
                let warp_running = run.warp.is_some();
                let nothing_pending = run.pending.is_empty();
                match &mut run.stage {
                    Stage::Running(plan) => {
                        let front_is_warp = plan.len() > 0 && matches!(
                            plan[0],
                            Command::WarpStart { .. }
                        );
                        if earlier_pending || warp_running || (front_is_warp && !nothing_pending) {
                            return None;
                        }
                        let ghost p0 = plan@;
                        let c = plan.pop_front();
                        proof {
                            if p0.len() > 0 {
                                assert(p0.subrange(1, p0.len() as int) =~= p0.drop_first());
                            }
                        }
                        c
                    },
                    _ => None,
                }
            },
        }
    }

    /// Records that a command of the run was issued under `id`. A stop issued
    /// while the run is stopping or blocked is marked as the warp's stop.
    pub fn submitted(&mut self, id: u64, command: &Command)
        requires
            old(self).run_spec() is Some,
        ensures
            final(self).notices_spec() == old(self).notices_spec(),
            ({
                let run = old(self).run_spec()->0;
                final(self).run_spec() == Some(
                    RunView {
                        pending: run.pending.insert(
                            id,
                            (run.stopping || run.blocked is Some) && *command is WarpStop,
                        ),
                        warp: if *command is WarpStart {
                            Some(id)
                        } else {
                            run.warp
                        },
                        ..run
                    },
                )
            }),
    {
        match &mut self.run {
            Some(run) => {
                let stopping = (run.stopping || run.blocked.is_some()) && matches!(
                    command,
                    Command::WarpStop
                );
                run.pending.insert(id, stopping);
                if matches!(command, Command::WarpStart { .. }) {
                    run.warp = Some(id);
                }
            },
            None => {},
        }
    }

    /// Takes the outcome of an issued command. Business rejections of planned
    /// commands do not block; other errors block the run with their cause, and
    /// a failed warp stop ends the run at once.
    pub fn terminal(&mut self, id: u64, outcome: &Outcome)
        ensures
            match old(self).run_spec() {
                None => final(self).run_spec() is None && final(self).notices_spec()
                    == old(self).notices_spec(),
                Some(run) => if !run.pending.contains_key(id) {
                    final(self).run_spec() == Some(run) && final(self).notices_spec()
                        == old(self).notices_spec()
                } else {
                    let stop = run.pending[id];
                    let r1 = settled(run, id);
                    match *outcome {
                        Ok(_) => final(self).run_spec() == Some(r1) && final(self).notices_spec()
                            == old(self).notices_spec(),
                        Err(e) => match terminal_block(e@, stop) {
                            None => final(self).run_spec() == Some(r1)
                                && final(self).notices_spec() == old(self).notices_spec(),
                            Some(code) => {
                                let r2 = blocked_with(r1, code, e);
                                if stop {
                                    &&& final(self).run_spec() is None
                                    &&& final(self).notices_spec().subrange(
                                        0,
                                        old(self).notices_spec().len() as int,
                                    ) == old(self).notices_spec()
                                    &&& final(self).notices_spec().len()
                                        == old(self).notices_spec().len() + 1 + r2.stops.len()
                                    &&& finish_notices(
                                        r2,
                                        final(self).notices_spec().subrange(
                                            old(self).notices_spec().len() as int,
                                            final(self).notices_spec().len() as int,
                                        ),
                                    )
                                } else {
                                    final(self).run_spec() == Some(r2)
                                        && final(self).notices_spec() == old(self).notices_spec()
                                }
                            },
                        },
                    }
                },
            },
    {
        let (stop, blocking) = match &mut self.run {
            None => {
                return ;
            },
            Some(run) => {
                let stop = match run.pending.remove(&id) {
                    None => {
                        assert(run.pending@ =~= old(self).run_spec()->0.pending);
                        return ;
                    },
                    Some(stop) => stop,
                };
                if run.warp == Some(id) {
                    run.warp = None;
                }
                let blocking = match outcome {
                    Ok(_) => None,
                    Err(e) => match e {
                        Error::Rejected { .. } => if stop {
                            Some((BlockCode::StopFailed, e.duplicate()))
                        } else {
                            None
                        },
                        Error::Protocol { .. } => if stop {
                            Some((BlockCode::StopFailed, e.duplicate()))
                        } else {
                            Some((BlockCode::CommandProtocolFailed, e.duplicate()))
                        },
                        Error::Io { .. } => Some((BlockCode::SessionIoFailed, e.duplicate())),
                        Error::Ended => Some((BlockCode::SessionEnded, e.duplicate())),
                        Error::RequestIdExhausted => Some(
                            (BlockCode::RequestIdExhausted, e.duplicate()),
                        ),
                        _ => Some((BlockCode::StopFailed, e.duplicate())),
                    },
                };
                (stop, blocking)
            },
        };
        match blocking {
            Some((code, error)) => {
                self.block(code, error);
                if stop {
                    self.finish();
                }
            },
            None => {},
        }
    }

    /// An issued command could not be submitted. The run is blocked; when even
    /// the stop of its warp could not be issued, it ends at once.
    pub fn submission_failed(&mut self, error: Error)
        ensures
            match old(self).run_spec() {
                None => final(self).run_spec() is None && final(self).notices_spec()
                    == old(self).notices_spec(),
                Some(run) => {
                    let code = if error@ is RequestIdExhausted {
                        BlockCode::RequestIdExhausted
                    } else {
                        BlockCode::SessionIoFailed
                    };
                    let r2 = blocked_with(run, code, error);
                    if r2.warp is Some && r2.stop_sent {
                        &&& final(self).run_spec() is None
                        &&& final(self).notices_spec().subrange(
                            0,
                            old(self).notices_spec().len() as int,
                        ) == old(self).notices_spec()
                        &&& final(self).notices_spec().len() == old(self).notices_spec().len() + 1
                            + r2.stops.len()
                        &&& finish_notices(
                            r2,
                            final(self).notices_spec().subrange(
                                old(self).notices_spec().len() as int,
                                final(self).notices_spec().len() as int,
                            ),
                        )
                    } else {
                        final(self).run_spec() == Some(r2) && final(self).notices_spec()
                            == old(self).notices_spec()
                    }
                },
            },
    {
        let code = if matches!(error, Error::RequestIdExhausted) {
            BlockCode::RequestIdExhausted
        } else {
            BlockCode::SessionIoFailed
        };
        self.block(code, error);
        let stuck = match &self.run {
            Some(run) => run.warp.is_some() && run.stop_sent,
            None => false,
        };
        if stuck {
            self.finish();
        }
    }

    /// The session ended. A run is blocked with the cause and answered; every
    /// answer due is handed out. Returns whether a running file load must be
    /// cancelled.
    pub fn end(&mut self, error: Error) -> (r: (bool, Vec<Notice>))
        ensures
            final(self).run_spec() is None,
            final(self).notices_spec().len() == 0,
            match old(self).run_spec() {
                None => !r.0 && r.1@ == old(self).notices_spec(),
                Some(run) => {
                    let code = if error@ is Io {
                        BlockCode::SessionIoFailed
                    } else {
                        BlockCode::SessionEnded
                    };
                    let r2 = blocked_with(run, code, error);
                    &&& r.0 == run.stage is Preparing
                    &&& r.1@.subrange(0, old(self).notices_spec().len() as int)
                        == old(self).notices_spec()
                    &&& r.1@.len() == old(self).notices_spec().len() + 1 + r2.stops.len()
                    &&& finish_notices(
                        r2,
                        r.1@.subrange(old(self).notices_spec().len() as int, r.1@.len() as int),
                    )
                },
            },
    {
        let cancel = match &self.run {
            Some(run) => matches!(run.stage, Stage::Preparing),
            None => false,
        };
        let code = if matches!(error, Error::Io { .. }) {
            BlockCode::SessionIoFailed
        } else {
            BlockCode::SessionEnded
        };
        self.block(code, error);
        if self.run.is_some() {
            self.finish();
        }
        let out = self.drain();
        (cancel, out)
    }
}

/// The first cause that blocks a run is the one it keeps: a later cause
/// changes nothing.
pub proof fn lemma_first_block_wins(
    run: RunView,
    first: BlockCode,
    cause: Error,
    later: BlockCode,
    other: Error,
)
    requires
        run.blocked is None,
    ensures
        blocked_with(blocked_with(run, first, cause), later, other) == blocked_with(
            run,
            first,
            cause,
        ),
        blocked_with(run, first, cause).blocked == Some((first, cause)),
{
}

proof fn lemma_settled_all(run: RunView, ids: Seq<u64>)
    ensures
        settled_all(run, ids).pending.dom() =~= run.pending.dom().difference(ids.to_set()),
        settled_all(run, ids).stage == run.stage,
        settled_all(run, ids).stopping == run.stopping,
        settled_all(run, ids).stops == run.stops,
        settled_all(run, ids).start == run.start,
        settled_all(run, ids).blocked == run.blocked,
    decreases ids.len(),
{
    if ids.len() > 0 {
        lemma_settled_all(run, ids.drop_last());
        assert(ids.to_set() =~= ids.drop_last().to_set().insert(ids.last())) by {
            assert forall|x: u64| ids.to_set().contains(x) implies ids.drop_last().to_set().insert(
                ids.last(),
            ).contains(x) by {
                let i = choose|i: int| 0 <= i < ids.len() && ids[i] == x;
                if i < ids.len() - 1 {
                    assert(ids.drop_last()[i] == x);
                }
            }
            assert forall|x: u64| ids.drop_last().to_set().insert(ids.last()).contains(x) implies ids.to_set().contains(x) by {
                if x != ids.last() {
                    let i = choose|i: int| 0 <= i < ids.len() - 1 && ids.drop_last()[i] == x;
                    assert(ids[i] == x);
                } else {
                    assert(ids[ids.len() - 1] == x);
                }
            }
        }
    }
}

/// A stopped run waits for every command it issued: while one of them has no
/// outcome the run is not over, whatever order the others succeeded in; once
/// all have succeeded it is over, its start is answered as stopped and every
/// stop, in the order the stops came, as having stopped a running replay.
pub proof fn stop_waits_for_every_issued_command(
    run: RunView,
    ids: Seq<u64>,
    file_barrier: bool,
    added: Seq<Notice>,
)
    requires
        run.stage is Running,
        run.stopping,
        run.blocked is None,
        ids.no_duplicates(),
        run.pending.dom() == ids.to_set(),
    ensures
        forall|k: int|
            0 <= k < ids.len() ==> !run_over(
                after_waiting(#[trigger] settled_all(run, ids.take(k)), file_barrier),
            ),
        run_over(after_waiting(settled_all(run, ids), file_barrier)),
        finish_notices(settled_all(run, ids), added) ==> {
            &&& added.len() == 1 + run.stops.len()
            &&& added[0].id == run.start
            &&& added[0].result is Ok
            &&& added[0].result->Ok_0 == Output::Completion(Completion::Stopped)
            &&& forall|i: int|
                0 <= i < run.stops.len() ==> (#[trigger] added[i + 1]).id == run.stops[i]
                    && added[i + 1].result == Ok::<Output, Error>(
                    Output::Stopped { was_running: true },
                )
        },
{
    assert forall|k: int| 0 <= k < ids.len() implies !run_over(
        after_waiting(#[trigger] settled_all(run, ids.take(k)), file_barrier),
    ) by {
        lemma_settled_all(run, ids.take(k));
        let rest = settled_all(run, ids.take(k));
        assert(ids.to_set().contains(ids[k]));
        if ids.take(k).to_set().contains(ids[k]) {
            let i = choose|i: int| 0 <= i < ids.take(k).len() && ids.take(k)[i] == ids[k];
            assert(ids[i] == ids[k]);
        }
        assert(rest.pending.dom().contains(ids[k]));
    }
    lemma_settled_all(run, ids);
    let done = settled_all(run, ids);
    assert(done.pending.dom() =~= Set::<u64>::empty());
    if finish_notices(done, added) {
        let c = added[0].result->Ok_0->Completion_0;
        match c {
            Completion::Blocked { .. } => {
                assert(false);
            },
            Completion::Completed => {
                assert(false);
            },
            Completion::Stopped => {},
        }
    }
}

} // verus!
