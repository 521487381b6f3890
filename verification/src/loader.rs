//! The versioned recording file schema, read line by line into a command plan.
//!
//! The application turns each text line into a [`Parsed`] value (JSON syntax,
//! duplicate keys and field shapes); this module owns every rule of the format
//! that spans lines or relates a command to its recorded outcome.
use vstd::prelude::*;
use crate::command::{Command, recordable};
use crate::error::{Error, ErrorView};
use crate::json::{decimal, decimal_of};

verus! {

/// How a recording ended.
#[derive(Debug, PartialEq, Eq, Structural, Clone, Copy)]
pub enum End {
    Stopped,
    SessionEnded,
}

/// How a warp ended.
#[derive(Debug, PartialEq, Eq, Structural, Clone, Copy)]
pub enum WarpOutcome {
    Completed,
    Stopped,
}

/// The output of a finished warp.
#[derive(Debug, Clone, Copy)]
pub struct WarpCompletion {
    pub requested_ticks: u64,
    pub executed_ticks: u64,
    pub outcome: WarpOutcome,
}

/// A recorded output, as far as the application could read it for its command.
#[derive(Debug)]
pub enum Output {
    /// A warp completion.
    Warp(WarpCompletion),
    /// A warp stop acknowledgement.
    StopAck { was_running: bool },
    /// An output that matches its command's output shape.
    Accepted,
    /// An output that does not match its command.
    Invalid,
}

/// What is read of a completion's JSON output: whether it is `null`, the
/// boolean `was_running` member of an object that has one, and the warp
/// completion an object of exactly the three warp members denotes.
#[derive(Debug, Clone, Copy)]
pub struct OutputShape {
    pub null: bool,
    pub was_running: Option<bool>,
    pub warp: Option<WarpCompletion>,
}

/// Whether an output has the shape of its command's output: a warp answers
/// with a warp completion, a warp stop with whether a warp was running, input
/// and shutdown commands with `null`; other outputs are not constrained.
pub open spec fn shape_fits(command: Command, s: OutputShape) -> bool {
    match command {
        Command::WarpStart { .. } => s.warp is Some,
        Command::WarpStop => s.was_running is Some,
        Command::KeyboardPress { .. } | Command::KeyboardRelease { .. } | Command::PointerMoveTo {
            ..
        } | Command::PointerMoveBy { .. } | Command::PointerPress { .. } | Command::PointerRelease {
            ..
        } | Command::PointerScroll { .. } | Command::TextInput { .. } | Command::Shutdown => s.null,
        _ => true,
    }
}

/// Checks that an output has the shape of its command's output.
pub fn shape_matches(command: &Command, s: &OutputShape) -> (r: bool)
    ensures
        r == shape_fits(*command, *s),
{
    match command {
        Command::WarpStart { .. } => s.warp.is_some(),
        Command::WarpStop => s.was_running.is_some(),
        Command::KeyboardPress { .. } | Command::KeyboardRelease { .. } | Command::PointerMoveTo {
            ..
        } | Command::PointerMoveBy { .. } | Command::PointerPress { .. } | Command::PointerRelease {
            ..
        } | Command::PointerScroll { .. } | Command::TextInput { .. } | Command::Shutdown => s.null,
        _ => true,
    }
}

/// The recorded output that an output of this shape is for its command.
pub open spec fn output_of(command: Command, s: OutputShape) -> Output {
    if !shape_fits(command, s) {
        Output::Invalid
    } else {
        match command {
            Command::WarpStart { .. } => Output::Warp(s.warp->0),
            Command::WarpStop => Output::StopAck { was_running: s.was_running->0 },
            _ => Output::Accepted,
        }
    }
}

/// Reads a recorded output for its command.
pub fn read_output(command: &Command, s: &OutputShape) -> (o: Output)
    ensures
        o == output_of(*command, *s),
{
    if !shape_matches(command, s) {
        return Output::Invalid;
    }
    match command {
        Command::WarpStart { .. } => match s.warp {
            Some(c) => Output::Warp(c),
            None => Output::Invalid,
        },
        Command::WarpStop => match s.was_running {
            Some(was_running) => Output::StopAck { was_running },
            None => Output::Invalid,
        },
        _ => Output::Accepted,
    }
}

/// A recorded outcome. Diagnostics describe the old run, so only their shape matters.
#[derive(Debug)]
pub enum RecordedOutcome {
    Completed(Output),
    Rejected,
    ProtocolFailed,
    IoFailed,
    Unanswered,
}

/// One line of a recording file as the application read it.
#[derive(Debug)]
#[allow(inconsistent_fields)]
pub enum Parsed {
    /// Not a JSON object, or a JSON object with a duplicate key at any depth.
    NotJson { message: String },
    /// A JSON object that does not fit the schema at its place.
    Malformed { message: String },
    /// The first line.
    Header { recording_started: bool, format_version: u64 },
    /// The footer.
    Ended { outcome: End, recorded_commands: u64 },
    /// A command line.
    Entry { command: Command, outcome: RecordedOutcome },
}

/// What the application read of one text line of a recording.
#[derive(Debug)]
pub enum LineRead {
    /// No JSON value, or one with a duplicate key: the parser's message.
    NotJson(String),
    /// A JSON value that is not an object.
    NotObject,
    /// An object: read as a header (whether its `type` is
    /// `recording_started`, and its version), whether its outcome is a
    /// completion without an output, and read as a footer or command line.
    Object { header: Result<(bool, u64), String>, output_missing: bool, body: Result<Parsed, String> },
}

/// Decides what a text line is at its place: anything but an object is no
/// JSON line; the first line is read as the header; a completion without an
/// output, and a line that fits no schema, are malformed.
pub fn classify_line(read: LineRead, first: bool) -> (p: Parsed)
    ensures
        match read {
            LineRead::NotJson(message) => p == (Parsed::NotJson { message }),
            LineRead::NotObject => p is NotJson && p->NotJson_message@ == "expected an object"@,
            LineRead::Object { header, output_missing, body } => if first {
                match header {
                    Ok((recording_started, format_version)) => p == (Parsed::Header {
                        recording_started,
                        format_version,
                    }),
                    Err(message) => p == (Parsed::NotJson { message }),
                }
            } else if output_missing {
                p is Malformed && p->Malformed_message@ == "missing output"@
            } else {
                match body {
                    Ok(line) => p == line,
                    Err(message) => p == (Parsed::Malformed { message }),
                }
            },
        },
{
    match read {
        LineRead::NotJson(message) => Parsed::NotJson { message },
        LineRead::NotObject => Parsed::NotJson { message: String::from_str("expected an object") },
        LineRead::Object { header, output_missing, body } => {
            if first {
                match header {
                    Ok((recording_started, format_version)) => Parsed::Header {
                        recording_started,
                        format_version,
                    },
                    Err(message) => Parsed::NotJson { message },
                }
            } else if output_missing {
                Parsed::Malformed { message: String::from_str("missing output") }
            } else {
                match body {
                    Ok(line) => line,
                    Err(message) => Parsed::Malformed { message },
                }
            }
        },
    }
}

/// Whether a warp completion fits the warp that requested `ticks`: it reports
/// the same request, did not run longer, and completed exactly when it ran all.
pub open spec fn warp_completion_fits(ticks: u64, c: WarpCompletion) -> bool {
    &&& c.requested_ticks == ticks
    &&& c.executed_ticks <= c.requested_ticks
    &&& (c.outcome == WarpOutcome::Completed) == (c.executed_ticks == c.requested_ticks)
}

/// Whether a recorded output fits its command.
pub open spec fn output_fits(command: Command, output: Output) -> bool {
    match command {
        Command::WarpStart { ticks, .. } => match output {
            Output::Warp(c) => warp_completion_fits(ticks, c),
            _ => false,
        },
        Command::WarpStop => output is StopAck,
        _ => output is Accepted,
    }
}

/// Checks a recorded output against its command.
pub fn output_matches(command: &Command, output: &Output) -> (r: bool)
    ensures
        r == output_fits(*command, *output),
{
    match command {
        Command::WarpStart { ticks, .. } => match output {
            Output::Warp(c) => c.requested_ticks == *ticks && c.executed_ticks <= c.requested_ticks
                && ((c.outcome == WarpOutcome::Completed) == (c.executed_ticks
                == c.requested_ticks)),
            _ => false,
        },
        Command::WarpStop => matches!(output, Output::StopAck { .. }),
        _ => matches!(output, Output::Accepted),
    }
}

/// The reading state, as a mathematical value.
pub struct Progress {
    /// Lines read so far.
    pub lines: nat,
    /// Command lines counted so far.
    pub count: nat,
    /// Whether the footer was read.
    pub ended: bool,
    /// Whether some command was recorded as unanswered.
    pub unanswered: bool,
    /// Whether the last warp was stopped, so that its stop may be dropped.
    pub stopped_warp: bool,
    /// The commands to execute, in order.
    pub plan: Seq<Command>,
}

/// The result of reading one line.
pub enum Verdict {
    Next(Progress),
    Invalid(Seq<char>),
    Unsupported(u64),
}

/// The rule for one command line: outputs must fit; a warp is replayed with
/// the ticks it actually executed and dropped when it executed none; the stop
/// that ended a stopped warp is dropped, also when its response was lost.
pub open spec fn entry_step(p: Progress, command: Command, outcome: RecordedOutcome) -> Verdict {
    let counted = Progress { count: p.count + 1, ..p };
    let uncertain_stop = p.stopped_warp && command is WarpStop && (outcome is ProtocolFailed
        || outcome is IoFailed || outcome is Unanswered);
    if !recordable(command) {
        Verdict::Invalid("command is not recordable"@)
    } else if p.count >= u64::MAX {
        Verdict::Invalid("command count overflow"@)
    } else {
        match outcome {
            RecordedOutcome::Completed(output) => if !output_fits(command, output) {
                Verdict::Invalid("output does not match command"@)
            } else {
                match command {
                    Command::WarpStart { pace, .. } => {
                        let c = output->Warp_0;
                        let next = Progress {
                            stopped_warp: c.outcome == WarpOutcome::Stopped,
                            ..counted
                        };
                        if c.executed_ticks == 0 {
                            Verdict::Next(next)
                        } else {
                            Verdict::Next(
                                Progress {
                                    plan: p.plan.push(
                                        Command::WarpStart { ticks: c.executed_ticks, pace },
                                    ),
                                    ..next
                                },
                            )
                        }
                    },
                    Command::WarpStop => if p.stopped_warp && output->StopAck_was_running {
                        Verdict::Next(Progress { stopped_warp: false, ..counted })
                    } else {
                        Verdict::Next(Progress { plan: p.plan.push(command), ..counted })
                    },
                    _ => Verdict::Next(Progress { plan: p.plan.push(command), ..counted }),
                }
            },
            _ => {
                let marked = Progress {
                    unanswered: p.unanswered || outcome is Unanswered,
                    ..counted
                };
                if uncertain_stop {
                    Verdict::Next(Progress { stopped_warp: false, ..marked })
                } else {
                    Verdict::Next(Progress { plan: p.plan.push(command), ..marked })
                }
            },
        }
    }
}

/// The rule for one line: the first line is the header of format version 1; a
/// footer must count every command line and may follow an unanswered command
/// only when the session ended; nothing may follow the footer.
pub open spec fn line_step(p: Progress, line: Parsed) -> Verdict {
    let p1 = Progress { lines: p.lines + 1, ..p };
    match line {
        Parsed::NotJson { message } => Verdict::Invalid(message@),
        Parsed::Header { recording_started, format_version } => if !recording_started {
            Verdict::Invalid("expected recording_started"@)
        } else if format_version != 1 {
            Verdict::Unsupported(format_version)
        } else {
            Verdict::Next(p1)
        },
        _ => if p.ended {
            Verdict::Invalid("data after footer"@)
        } else {
            match line {
                Parsed::Malformed { message } => Verdict::Invalid(message@),
                Parsed::Ended { outcome, recorded_commands } => if recorded_commands != p.count {
                    Verdict::Invalid("recorded_commands does not match"@)
                } else if p.unanswered && outcome != End::SessionEnded {
                    Verdict::Invalid("unanswered requires session_ended"@)
                } else {
                    Verdict::Next(Progress { ended: true, ..p1 })
                },
                Parsed::Entry { command, outcome } => entry_step(p1, command, outcome),
                _ => Verdict::Invalid(seq![]),
            }
        },
    }
}

/// The reading state before the first line.
pub open spec fn fresh() -> Progress {
    Progress { lines: 0, count: 0, ended: false, unanswered: false, stopped_warp: false, plan: seq![] }
}

/// Reading a whole file, line after line, up to the first line that fails.
pub open spec fn read_all(lines: Seq<Parsed>) -> Verdict
    decreases lines.len(),
{
    if lines.len() == 0 {
        Verdict::Next(fresh())
    } else {
        match read_all(lines.drop_last()) {
            Verdict::Next(p) => line_step(p, lines.last()),
            other => other,
        }
    }
}

/// How the application presents a file: the header can stand only at the first
/// line, and the first line is read as a header.
pub open spec fn arranged(lines: Seq<Parsed>) -> bool {
    forall|i: int|
        0 <= i < lines.len() ==> ((#[trigger] lines[i] is Header ==> i == 0) && (i == 0
            ==> lines[i] is Header || lines[i] is NotJson))
}

/// The number of command lines.
pub open spec fn entries(lines: Seq<Parsed>) -> nat
    decreases lines.len(),
{
    if lines.len() == 0 {
        0
    } else {
        entries(lines.drop_last()) + if lines.last() is Entry {
            1nat
        } else {
            0nat
        }
    }
}

/// Whether some command line records that its request was never answered.
pub open spec fn unanswered_in(lines: Seq<Parsed>) -> bool
    decreases lines.len(),
{
    if lines.len() == 0 {
        false
    } else {
        unanswered_in(lines.drop_last()) || (lines.last() is Entry
            && lines.last()->Entry_outcome is Unanswered)
    }
}

/// The command that replays a recorded one: a completed warp runs for the
/// ticks it executed; any other command is replayed as it was recorded.
pub open spec fn replayed(command: Command, outcome: RecordedOutcome) -> Command {
    match command {
        Command::WarpStart { pace, .. } => match outcome {
            RecordedOutcome::Completed(Output::Warp(c)) => Command::WarpStart {
                ticks: c.executed_ticks,
                pace,
            },
            _ => command,
        },
        _ => command,
    }
}

/// Whether `picked` selects, in increasing order, the command lines that make
/// up `plan`, each replayed from its recorded outcome.
pub open spec fn drawn_from(lines: Seq<Parsed>, plan: Seq<Command>, picked: Seq<int>) -> bool {
    &&& picked.len() == plan.len()
    &&& forall|j: int|
        0 <= j < picked.len() ==> {
            &&& 0 <= #[trigger] picked[j] < lines.len()
            &&& lines[picked[j]] is Entry
            &&& plan[j] == replayed(
                lines[picked[j]]->Entry_command,
                lines[picked[j]]->Entry_outcome,
            )
        }
    &&& forall|j: int, k: int| 0 <= j < k < picked.len() ==> picked[j] < picked[k]
}

/// Whether line `i` records a warp that completed with an output.
pub open spec fn completed_warp(lines: Seq<Parsed>, i: int) -> bool {
    &&& lines[i] is Entry
    &&& lines[i]->Entry_command is WarpStart
    &&& lines[i]->Entry_outcome is Completed
}

/// The ticks that the warp at line `i` executed.
pub open spec fn executed_at(lines: Seq<Parsed>, i: int) -> u64 {
    lines[i]->Entry_outcome->Completed_0->Warp_0.executed_ticks
}

/// Whether line `i` records a command other than a warp or a warp stop.
pub open spec fn plain_command(lines: Seq<Parsed>, i: int) -> bool {
    &&& lines[i] is Entry
    &&& !(lines[i]->Entry_command is WarpStart)
    &&& !(lines[i]->Entry_command is WarpStop)
}

proof fn lemma_read_all(lines: Seq<Parsed>) -> (picked: Seq<int>)
    requires
        arranged(lines),
        read_all(lines) is Next,
    ensures
        ({
            let p = read_all(lines)->Next_0;
            &&& p.lines == lines.len()
            &&& p.count == entries(lines)
            &&& p.unanswered == unanswered_in(lines)
            &&& p.ended == (lines.len() > 0 && lines.last() is Ended)
            &&& forall|i: int| 0 <= i < lines.len() - 1 ==> !(#[trigger] lines[i] is Ended)
            &&& (lines.len() > 0 && lines.last() is Ended) ==> {
                &&& lines.last()->Ended_recorded_commands == entries(lines)
                &&& unanswered_in(lines) ==> lines.last()->Ended_outcome == End::SessionEnded
            }
            &&& drawn_from(lines, p.plan, picked)
            &&& p.plan.len() <= p.count
            &&& forall|j: int| 0 <= j < p.plan.len() ==> recordable(#[trigger] p.plan[j])
            &&& forall|i: int|
                0 <= i < lines.len() && #[trigger] completed_warp(lines, i) ==> ((exists|j: int|
                    0 <= j < picked.len() && picked[j] == i) <==> executed_at(lines, i) > 0)
            &&& forall|i: int|
                0 <= i < lines.len() && #[trigger] plain_command(lines, i) ==> exists|j: int|
                    0 <= j < picked.len() && picked[j] == i
        }),
    decreases lines.len(),
{
    if lines.len() == 0 {
        return seq![];
    }
    let prev = lines.drop_last();
    let last = lines.last();
    let n = lines.len() - 1;
    assert(arranged(prev)) by {
        assert forall|i: int| 0 <= i < prev.len() implies ((#[trigger] prev[i] is Header ==> i
            == 0) && (i == 0 ==> prev[i] is Header || prev[i] is NotJson)) by {
            assert(prev[i] == lines[i]);
        }
    }
    let before = lemma_read_all(prev);
    let p = read_all(prev)->Next_0;
    let q = read_all(lines)->Next_0;
    assert(line_step(p, last) == read_all(lines));
    assert(lines[n] == last);
    assert forall|i: int| 0 <= i < n implies #[trigger] lines[i] == prev[i] by {}
    let picked = if q.plan.len() > p.plan.len() {
        before.push(n)
    } else {
        before
    };
    match last {
        Parsed::Header { .. } => {
            assert(n == 0);
            assert(prev.len() == 0);
            assert(q.plan == p.plan);
        },
        Parsed::Ended { .. } => {
            assert(!p.ended);
            assert(q.plan == p.plan);
        },
        Parsed::Entry { command, outcome } => {
            assert(!p.ended);
            match outcome {
                RecordedOutcome::Completed(output) => {
                    match command {
                        Command::WarpStart { .. } => {
                            assert(output is Warp);
                        },
                        _ => {},
                    }
                },
                _ => {},
            }
        },
        _ => {},
    }
    assert(picked.len() == q.plan.len());
    assert forall|j: int| 0 <= j < picked.len() implies {
        &&& 0 <= #[trigger] picked[j] < lines.len()
        &&& lines[picked[j]] is Entry
        &&& q.plan[j] == replayed(lines[picked[j]]->Entry_command, lines[picked[j]]->Entry_outcome)
    } by {
        if j < before.len() {
            assert(picked[j] == before[j]);
            assert(q.plan[j] == p.plan[j]);
        }
    }
    assert forall|i: int|
        0 <= i < lines.len() && #[trigger] completed_warp(lines, i) implies ((exists|j: int|
        0 <= j < picked.len() && picked[j] == i) <==> executed_at(lines, i) > 0) by {
        if i < n {
            assert(completed_warp(prev, i));
            if exists|j: int| 0 <= j < picked.len() && picked[j] == i {
                let j = choose|j: int| 0 <= j < picked.len() && picked[j] == i;
                assert(j < before.len());
                assert(before[j] == i);
            }
            if exists|j: int| 0 <= j < before.len() && before[j] == i {
                let j = choose|j: int| 0 <= j < before.len() && before[j] == i;
                assert(picked[j] == i);
            }
        } else {
            if executed_at(lines, i) > 0 {
                assert(picked[picked.len() - 1] == i);
            } else {
                assert(picked == before);
                assert forall|j: int| 0 <= j < picked.len() implies picked[j] != i by {}
            }
        }
    }
    assert forall|i: int| 0 <= i < lines.len() && #[trigger] plain_command(lines, i) implies exists|j: int|
        0 <= j < picked.len() && picked[j] == i by {
        if i < n {
            assert(plain_command(prev, i));
            let j = choose|j: int| 0 <= j < before.len() && before[j] == i;
            assert(picked[j] == i);
        } else {
            assert(q.plan.len() > p.plan.len());
            assert(picked[picked.len() - 1] == i);
        }
    }
    assert forall|j: int| 0 <= j < q.plan.len() implies recordable(#[trigger] q.plan[j]) by {
        if j < p.plan.len() {
            assert(q.plan[j] == p.plan[j]);
        }
    }
    picked
}

/// A footer that miscounts the command lines, or that follows an unanswered
/// command without `session_ended`, makes an otherwise readable file invalid:
/// reading stops at it with a format violation.
pub proof fn miscounting_footer_is_invalid(lines: Seq<Parsed>)
    requires
        arranged(lines),
        lines.len() > 1,
        read_all(lines.drop_last()) is Next,
        lines.last() is Ended,
        lines.last()->Ended_recorded_commands != entries(lines) || (unanswered_in(lines)
            && lines.last()->Ended_outcome != End::SessionEnded),
    ensures
        read_all(lines) is Invalid,
{
    let prev = lines.drop_last();
    assert(arranged(prev)) by {
        assert forall|i: int| 0 <= i < prev.len() implies ((#[trigger] prev[i] is Header ==> i
            == 0) && (i == 0 ==> prev[i] is Header || prev[i] is NotJson)) by {
            assert(prev[i] == lines[i]);
        }
    }
    lemma_read_all(prev);
}

/// A file that reads to the end has a footer only as its last line; the footer
/// counts every command line of the file, and a file that records an
/// unanswered command ends with `session_ended`.
pub proof fn footer_counts_every_command(lines: Seq<Parsed>)
    requires
        arranged(lines),
        read_all(lines) is Next,
    ensures
        forall|i: int|
            0 <= i < lines.len() && #[trigger] lines[i] is Ended ==> {
                &&& i == lines.len() - 1
                &&& lines[i]->Ended_recorded_commands == entries(lines)
                &&& unanswered_in(lines) ==> lines[i]->Ended_outcome == End::SessionEnded
            },
        read_all(lines)->Next_0.count == entries(lines),
        read_all(lines)->Next_0.ended == (lines.len() > 0 && lines.last() is Ended),
{
    lemma_read_all(lines);
}

/// The plan of a file that reads to the end is its command lines in file
/// order, some left out: each kept command is recordable and replayed as it
/// was recorded, a completed warp with the ticks it executed, and a completed
/// warp is kept exactly when it executed at least one tick, and every command
/// line that is neither a warp nor a warp stop is kept. There are no more
/// commands in the plan than command lines in the file.
pub proof fn plan_follows_the_file(lines: Seq<Parsed>) -> (picked: Seq<int>)
    requires
        arranged(lines),
        read_all(lines) is Next,
    ensures
        drawn_from(lines, read_all(lines)->Next_0.plan, picked),
        read_all(lines)->Next_0.plan.len() <= entries(lines),
        forall|j: int|
            0 <= j < read_all(lines)->Next_0.plan.len() ==> recordable(
                #[trigger] read_all(lines)->Next_0.plan[j],
            ),
        forall|i: int|
            0 <= i < lines.len() && #[trigger] completed_warp(lines, i) ==> ((exists|j: int|
                0 <= j < picked.len() && picked[j] == i) <==> executed_at(lines, i) > 0),
        forall|i: int|
            0 <= i < lines.len() && #[trigger] plain_command(lines, i) ==> exists|j: int|
                0 <= j < picked.len() && picked[j] == i,
{
    lemma_read_all(lines)
}

/// The message of a format violation: the file, the line number and the reason.
pub open spec fn located(path: Seq<char>, line: nat, message: Seq<char>) -> Seq<char> {
    path + ": line "@ + decimal_of(line) + ": "@ + message
}

/// The error of a format violation.
pub open spec fn invalid_error(path: Seq<char>, line: nat, message: Seq<char>) -> ErrorView {
    ErrorView::Rejected { code: "invalid_recording"@, message: located(path, line, message) }
}

/// The error of a header announcing another format version.
pub open spec fn unsupported_error(path: Seq<char>, version: u64) -> ErrorView {
    ErrorView::Rejected {
        code: "unsupported_recording_version"@,
        message: path + ": line 1: version "@ + decimal_of(version as nat),
    }
}

fn located_message(path: &str, line: u64, message: &str) -> (r: String)
    ensures
        r@ == located(path@, line as nat, message@),
{
    let mut s = String::from_str(path);
    s.append(": line ");
    let digits = decimal(line);
    s.append(digits.as_str());
    s.append(": ");
    s.append(message);
    s
}

fn invalid(path: &str, line: u64, message: &str) -> (e: Error)
    ensures
        e@ == invalid_error(path@, line as nat, message@),
{
    Error::Rejected {
        code: String::from_str("invalid_recording"),
        message: located_message(path, line, message),
    }
}

/// Reads a recording file line by line.
pub struct Loader {
    lines: u64,
    count: u64,
    ended: bool,
    unanswered: bool,
    stopped_warp: bool,
    plan: Vec<Command>,
}

impl Loader {
    /// The reading state.
    pub closed spec fn progress(&self) -> Progress {
        Progress {
            lines: self.lines as nat,
            count: self.count as nat,
            ended: self.ended,
            unanswered: self.unanswered,
            stopped_warp: self.stopped_warp,
            plan: self.plan@,
        }
    }

    /// A loader before the first line.
    pub fn new() -> (l: Loader)
        ensures
            l.progress() == (Progress {
                lines: 0,
                count: 0,
                ended: false,
                unanswered: false,
                stopped_warp: false,
                plan: seq![],
            }),
    {
        Loader {
            lines: 0,
            count: 0,
            ended: false,
            unanswered: false,
            stopped_warp: false,
            plan: Vec::new(),
        }
    }

    /// The number of lines read so far.
    pub fn lines(&self) -> (r: u64)
        ensures
            r == self.progress().lines,
    {
        self.lines
    }

    /// The error of a failure to read the next line: an input/output failure
    /// that names the file and the line number.
    pub fn read_failure(&self, path: &str, message: &str) -> (e: Error)
        requires
            self.progress().lines < u64::MAX,
        ensures
            e@ == (ErrorView::Io {
                message: located(path@, self.progress().lines + 1, message@),
            }),
    {
        Error::Io { message: located_message(path, self.lines + 1, message) }
    }

    /// Reads one more line. The header is read at the first line only.
    pub fn step(&mut self, path: &str, line: Parsed) -> (r: Result<(), Error>)
        requires
            old(self).progress().lines < u64::MAX,
            line is Header ==> old(self).progress().lines == 0,
            old(self).progress().lines == 0 ==> line is Header || line is NotJson,
        ensures
            match line_step(old(self).progress(), line) {
                Verdict::Next(p) => r is Ok && final(self).progress() == p,
                Verdict::Invalid(m) => r is Err && r->Err_0@ == invalid_error(
                    path@,
                    old(self).progress().lines + 1,
                    m,
                ),
                Verdict::Unsupported(v) => r is Err && r->Err_0@ == unsupported_error(path@, v),
            },
            r is Ok && line is Entry && !(line->Entry_command is WarpStart)
                && !(line->Entry_command is WarpStop) ==> final(self).progress().plan == old(
                self,
            ).progress().plan.push(line->Entry_command),
    {
        let number = self.lines + 1;
        match line {
            Parsed::NotJson { message } => {
                return Err(invalid(path, number, message.as_str()));
            },
            Parsed::Header { recording_started, format_version } => {
                if !recording_started {
                    return Err(invalid(path, number, "expected recording_started"));
                }
                if format_version != 1 {
                    let mut m = String::from_str(path);
                    m.append(": line 1: version ");
                    let digits = decimal(format_version);
                    m.append(digits.as_str());
                    return Err(
                        Error::Rejected {
                            code: String::from_str("unsupported_recording_version"),
                            message: m,
                        },
                    );
                }
                self.lines = number;
                return Ok(());
            },
            _ => {},
        }
        if self.ended {
            return Err(invalid(path, number, "data after footer"));
        }
        match line {
            Parsed::Malformed { message } => Err(invalid(path, number, message.as_str())),
            Parsed::Ended { outcome, recorded_commands } => {
                if recorded_commands != self.count {
                    return Err(invalid(path, number, "recorded_commands does not match"));
                }
                if self.unanswered && outcome != End::SessionEnded {
                    return Err(invalid(path, number, "unanswered requires session_ended"));
                }
                self.lines = number;
                self.ended = true;
                Ok(())
            },
            Parsed::Entry { command, outcome } => {
                if !command.is_recordable() {
                    return Err(invalid(path, number, "command is not recordable"));
                }
                if self.count == u64::MAX {
                    return Err(invalid(path, number, "command count overflow"));
                }
                let uncertain_stop = self.stopped_warp && matches!(command, Command::WarpStop)
                    && matches!(
                    outcome,
                    RecordedOutcome::ProtocolFailed | RecordedOutcome::IoFailed
                        | RecordedOutcome::Unanswered
                );
                match outcome {
                    RecordedOutcome::Completed(output) => {
                        if !output_matches(&command, &output) {
                            return Err(invalid(path, number, "output does not match command"));
                        }
                        self.lines = number;
                        self.count = self.count + 1;
                        match command {
                            Command::WarpStart { pace, .. } => {
                                if let Output::Warp(c) = output {
                                    self.stopped_warp = c.outcome == WarpOutcome::Stopped;
                                    if c.executed_ticks != 0 {
                                        self.plan.push(
                                            Command::WarpStart { ticks: c.executed_ticks, pace },
                                        );
                                    }
                                }
                                Ok(())
                            },
                            Command::WarpStop => {
                                let was_running = match output {
                                    Output::StopAck { was_running } => was_running,
                                    _ => false,
                                };
                                if self.stopped_warp && was_running {
                                    self.stopped_warp = false;
                                } else {
                                    self.plan.push(Command::WarpStop);
                                }
                                Ok(())
                            },
                            other => {
                                self.plan.push(other);
                                Ok(())
                            },
                        }
                    },
                    other => {
                        self.lines = number;
                        self.count = self.count + 1;
                        if matches!(other, RecordedOutcome::Unanswered) {
                            self.unanswered = true;
                        }
                        if uncertain_stop {
                            self.stopped_warp = false;
                        } else {
                            self.plan.push(command);
                        }
                        Ok(())
                    },
                }
            },
            _ => Err(invalid(path, number, "")),
        }
    }

    /// Ends reading: the file must have had its footer. Yields the plan.
    pub fn finish(self, path: &str) -> (r: Result<Vec<Command>, Error>)
        requires
            self.progress().lines < u64::MAX,
        ensures
            self.progress().ended ==> r is Ok && r->Ok_0@ == self.progress().plan,
            !self.progress().ended ==> r is Err && r->Err_0@ == invalid_error(
                path@,
                self.progress().lines + 1,
                "missing complete footer"@,
            ),
    {
        if !self.ended {
            return Err(invalid(path, self.lines + 1, "missing complete footer"));
        }
        Ok(self.plan)
    }
}

} // verus!
