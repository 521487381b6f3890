//! The recording state machine and command-order buffering. File work belongs
//! to a worker that the application runs; this module decides what it is told.
use vstd::prelude::*;
use vstd::utf8::encode_utf8;
use std::collections::VecDeque;
use crate::command::{Command, recordable};
use crate::error::{Error, ErrorView};
use crate::history::{Outcome, Recorded, RecordedView, record_of, recorded_of, duplicate_outcome};
use crate::json::{json_string, json_string_of, decimal, decimal_of};
use crate::paths::{is_normalized_relative, normalized_relative};
use crate::session::Event;

verus! {

/// Bytes of the recording file extension `.jsonl`.
pub open spec fn jsonl() -> Seq<u8> {
    seq![46u8, 106u8, 115u8, 111u8, 110u8, 108u8]
}

/// Whether a recording path is acceptable: a normalized relative `.jsonl` path.
pub open spec fn valid_recording_path(path: Seq<char>) -> bool {
    normalized_relative(encode_utf8(path), jsonl())
}

/// Checks a recording path before any file work.
pub fn validate(path: &str) -> (r: Result<(), Error>)
    ensures
        r is Ok <==> valid_recording_path(path@),
        r is Err ==> r->Err_0@ == (ErrorView::Rejected {
            code: "invalid_recording_path"@,
            message: path@,
        }),
{
    let ext: [u8; 6] = [46u8, 106u8, 115u8, 111u8, 110u8, 108u8];
    let e = ext.as_slice();
    assert(e@ =~= jsonl());
    if is_normalized_relative(path.as_bytes(), e) {
        Ok(())
    } else {
        Err(
            Error::Rejected {
                code: String::from_str("invalid_recording_path"),
                message: String::from_str(path),
            },
        )
    }
}

/// The error of a file-system failure on the way to a recording file: a
/// symbolic link or a non-directory inside the path (`through_link`) makes
/// the path invalid; any other failure is an input/output failure. The error
/// names the path before the failure's text.
pub fn path_failure(through_link: bool, path: &str, message: &str) -> (e: Error)
    ensures
        through_link ==> e@ == rejected("invalid_recording_path"@, path@ + ": "@ + message@),
        !through_link ==> e@ == (ErrorView::Io { message: path@ + ": "@ + message@ }),
{
    let mut text = String::from_str(path);
    text.append(": ");
    text.append(message);
    if through_link {
        Error::Rejected { code: String::from_str("invalid_recording_path"), message: text }
    } else {
        Error::Io { message: text }
    }
}

/// Where a recorder stands between file acknowledgements.
#[derive(Debug)]
pub enum Phase {
    Idle,
    Starting { id: u64, path: String },
    Active,
    Stopping { id: u64, path: String },
}

/// A recordable command accepted while recording, and its outcome once known.
#[derive(Debug)]
pub struct Buffered {
    pub id: u64,
    pub command: Command,
    pub outcome: Option<Outcome>,
}

/// One command line of a recording file.
#[derive(Debug)]
pub struct Line {
    pub command: Command,
    pub outcome: Recorded,
}

/// Whether `line` persists `entry`: same command, and the persisted shape of its outcome.
pub open spec fn line_of(entry: Buffered, line: Line) -> bool {
    line.command == entry.command && line.outcome@ == recorded_of(entry.outcome)
}

/// What the file worker is told to do.
#[derive(Debug)]
pub enum Operation {
    Start(String),
    Append(Vec<Line>),
    Stop,
    End(Vec<Line>),
}

/// What the file worker reports back.
#[derive(Debug)]
pub enum Reply {
    Started(Result<(), Error>),
    Stopped(Result<u64, Error>),
    Failed { path: String, message: String },
    Ended,
}

/// What a reply means for the session: a completed control request or an event.
#[derive(Debug)]
pub enum Notice {
    Complete { id: u64, outcome: Outcome },
    Event(Event),
}

/// The JSON output of an accepted recording start.
pub open spec fn started_output(path: Seq<char>) -> Seq<char> {
    "{\"path\":"@ + json_string_of(path) + "}"@
}

/// The JSON output of a finished recording stop.
pub open spec fn stopped_output(path: Seq<char>, count: u64) -> Seq<char> {
    "{\"path\":"@ + json_string_of(path) + ",\"recorded_commands\":"@ + decimal_of(count as nat)
        + "}"@
}

/// A rejection with a code and a message.
pub open spec fn rejected(code: Seq<char>, message: Seq<char>) -> ErrorView {
    ErrorView::Rejected { code, message }
}

fn reject(code: &str, message: &str) -> (e: Error)
    ensures
        e@ == rejected(code@, message@),
{
    Error::Rejected { code: String::from_str(code), message: String::from_str(message) }
}

/// The rejection of a recording control, if it is rejected.
pub open spec fn control_error(phase: Phase, command: Command, commands_pending: bool) -> Option<
    ErrorView,
> {
    if phase is Starting || phase is Stopping {
        Some(rejected("recording_transition_in_progress"@, "recording file transition is pending"@))
    } else {
        match command {
            Command::RecordingStart { path } => if !(phase is Idle) {
                Some(rejected("recording_already_active"@, "stop the current recording first"@))
            } else if commands_pending {
                Some(rejected("recording_commands_pending"@, "earlier commands are pending"@))
            } else if !valid_recording_path(path@) {
                Some(rejected("invalid_recording_path"@, path@))
            } else {
                None
            },
            _ => if phase is Idle {
                Some(rejected("recording_not_active"@, "no recording is active"@))
            } else if commands_pending {
                Some(rejected("recording_commands_pending"@, "earlier commands are pending"@))
            } else {
                None
            },
        }
    }
}

/// The recording state of a session.
pub struct Recorder {
    phase: Phase,
    path: String,
    entries: VecDeque<Buffered>,
}

/// The number of leading entries whose outcome is known.
pub open spec fn ready_prefix(s: Seq<Buffered>, k: int) -> bool {
    &&& 0 <= k <= s.len()
    &&& forall|j: int| 0 <= j < k ==> (#[trigger] s[j]).outcome is Some
    &&& (k == s.len() || s[k].outcome is None)
}

/// The buffer after the outcome of `id` arrives: the first entry of `id` takes it.
pub open spec fn with_outcome(s: Seq<Buffered>, id: u64, outcome: Outcome) -> Seq<Buffered> {
    Seq::new(
        s.len(),
        |j: int|
            if s[j].id == id && forall|k: int| 0 <= k < j ==> s[k].id != id {
                Buffered { id: s[j].id, command: s[j].command, outcome: Some(outcome) }
            } else {
                s[j]
            },
    )
}

impl Recorder {
    /// The phase of the recorder.
    pub closed spec fn phase_spec(&self) -> Phase {
        self.phase
    }

    /// The path of the active recording.
    pub closed spec fn path_spec(&self) -> Seq<char> {
        self.path@
    }

    /// The buffered commands, oldest first.
    pub closed spec fn entries_spec(&self) -> Seq<Buffered> {
        self.entries@
    }

    /// The phase of the recorder.
    pub fn phase(&self) -> (r: &Phase)
        ensures
            *r == self.phase_spec(),
    {
        &self.phase
    }

    /// A recorder that is not recording.
    pub fn new() -> (r: Recorder)
        ensures
            r.phase_spec() is Idle,
            r.entries_spec().len() == 0,
    {
        Recorder { phase: Phase::Idle, path: String::new(), entries: VecDeque::new() }
    }

    /// Whether a recording is active or changing.
    pub fn busy(&self) -> (r: bool)
        ensures
            r == !(self.phase_spec() is Idle),
    {
        !matches!(self.phase, Phase::Idle)
    }

    /// Whether a recording file is being opened or closed.
    pub fn transitioning(&self) -> (r: bool)
        ensures
            r == (self.phase_spec() is Starting || self.phase_spec() is Stopping),
    {
        matches!(self.phase, Phase::Starting { .. } | Phase::Stopping { .. })
    }

    /// Decides a recording start or stop. A start needs no recording and no
    /// earlier pending command, and a valid path; a stop needs an active recording
    /// and no earlier pending command; nothing is accepted while a file is being
    /// opened or closed. An accepted control tells the worker what to do.
    pub fn control(&mut self, id: u64, command: &Command, commands_pending: bool) -> (r: Result<
        Operation,
        Error,
    >)
        requires
            command is RecordingStart || command is RecordingStop,
        ensures
            final(self).entries_spec() == old(self).entries_spec(),
            final(self).path_spec() == old(self).path_spec(),
            r is Err ==> final(self).phase_spec() == old(self).phase_spec(),
            r is Err ==> *final(self) == *old(self),
            r is Err <==> control_error(old(self).phase_spec(), *command, commands_pending) is Some,
            r is Err ==> r->Err_0@ == control_error(
                old(self).phase_spec(),
                *command,
                commands_pending,
            )->0,
            r is Ok ==> (final(self).phase_spec() is Starting || final(self).phase_spec() is Stopping),
            r is Ok ==> control_accepted(*old(self), *final(self), id, *command, r->Ok_0),
            ({
                let phase = old(self).phase_spec();
                if phase is Starting || phase is Stopping {
                    r is Err && r->Err_0@ == rejected(
                        "recording_transition_in_progress"@,
                        "recording file transition is pending"@,
                    )
                } else {
                    match *command {
                        Command::RecordingStart { path } => if !(phase is Idle) {
                            r is Err && r->Err_0@ == rejected(
                                "recording_already_active"@,
                                "stop the current recording first"@,
                            )
                        } else if commands_pending {
                            r is Err && r->Err_0@ == rejected(
                                "recording_commands_pending"@,
                                "earlier commands are pending"@,
                            )
                        } else if !valid_recording_path(path@) {
                            r is Err && r->Err_0@ == rejected(
                                "invalid_recording_path"@,
                                path@,
                            )
                        } else {
                            &&& r == Ok::<Operation, Error>(Operation::Start(path))
                            &&& final(self).phase_spec() == (Phase::Starting { id, path })
                        },
                        _ => if phase is Idle {
                            r is Err && r->Err_0@ == rejected(
                                "recording_not_active"@,
                                "no recording is active"@,
                            )
                        } else if commands_pending {
                            r is Err && r->Err_0@ == rejected(
                                "recording_commands_pending"@,
                                "earlier commands are pending"@,
                            )
                        } else {
                            &&& r == Ok::<Operation, Error>(Operation::Stop)
                            &&& final(self).phase_spec() is Stopping
                            &&& final(self).phase_spec()->Stopping_id == id
                            &&& final(self).phase_spec()->Stopping_path@ == old(self).path_spec()
                        },
                    }
                }
            }),
    {
        if self.transitioning() {
            return Err(
                reject("recording_transition_in_progress", "recording file transition is pending"),
            );
        }
        match command {
            Command::RecordingStart { path } => {
                if self.busy() {
                    return Err(reject("recording_already_active", "stop the current recording first"));
                }
                if commands_pending {
                    return Err(reject("recording_commands_pending", "earlier commands are pending"));
                }
                match validate(path.as_str()) {
                    Err(e) => {
                        return Err(e);
                    },
                    Ok(()) => {},
                }
                self.phase = Phase::Starting { id, path: path.clone() };
                Ok(Operation::Start(path.clone()))
            },
            _ => {
                if !self.busy() {
                    return Err(reject("recording_not_active", "no recording is active"));
                }
                if commands_pending {
                    return Err(reject("recording_commands_pending", "earlier commands are pending"));
                }
                self.phase = Phase::Stopping { id, path: self.path.clone() };
                Ok(Operation::Stop)
            },
        }
    }

    /// Undoes an accepted control whose operation could not be handed to the worker.
    pub fn withdraw(&mut self, id: u64)
        ensures
            withdraw_effect(*old(self), *final(self), id),
    {
        let back = match &self.phase {
            Phase::Starting { id: started, .. } => *started == id,
            Phase::Stopping { id: stopped, .. } => *stopped == id,
            _ => false,
        };
        if back {
            if matches!(self.phase, Phase::Starting { .. }) {
                self.phase = Phase::Idle;
            } else {
                self.phase = Phase::Active;
            }
        }
    }

    /// Buffers a command that is sent to the game while a recording is active.
    pub fn record(&mut self, id: u64, command: &Command)
        ensures
            record_effect(*old(self), *final(self), id, *command),
    {
        if matches!(self.phase, Phase::Active) && command.is_recordable() {
            self.entries.push_back(Buffered { id, command: command.duplicate(), outcome: None });
        }
    }

    /// Stores the outcome of `id` and releases, in acceptance order, every
    /// leading command whose outcome is known. Nothing is reordered or lost: the
    /// released lines followed by the remaining buffer are the buffer before.
    pub fn terminal(&mut self, id: u64, outcome: &Outcome) -> (r: Option<Operation>)
        ensures
            terminal_effect(*old(self), *final(self), id, *outcome, r),
    {
        let ghost s0 = self.entries@;
        let ghost updated = with_outcome(s0, id, *outcome);
        let n = self.entries.len();
        let mut i: usize = 0;
        let mut found = false;
        while i < n && !found
            invariant
                n == s0.len(),
                self.entries@ == s0,
                i <= n,
                found ==> i < n && s0[i as int].id == id,
                forall|k: int| 0 <= k < i ==> s0[k].id != id,
            decreases n - i, (if found { 0int } else { 1int }),
        {
            if self.entries[i].id == id {
                found = true;
            } else {
                i = i + 1;
            }
        }
        if found {
            let old_entry = self.entries.remove(i).unwrap();
            self.entries.insert(
                i,
                Buffered { id: old_entry.id, command: old_entry.command, outcome: Some(duplicate_outcome(outcome)) },
            );
        }
        assert(self.entries@ =~= updated) by {
            assert forall|j: int| 0 <= j < s0.len() implies #[trigger] self.entries@[j] == updated[j] by {
                if found && j != i {
                    if j > i {
                        assert(s0[i as int].id == id);
                    }
                }
            }
        }
        let mut lines: Vec<Line> = Vec::new();
        loop
            invariant
                0 <= lines@.len() <= updated.len(),
                self.entries@ == updated.subrange(lines@.len() as int, updated.len() as int),
                forall|j: int| 0 <= j < lines@.len() ==> (#[trigger] updated[j]).outcome is Some,
                forall|j: int| 0 <= j < lines@.len() ==> line_of(updated[j], #[trigger] lines@[j]),
                self.phase == old(self).phase,
                self.path == old(self).path,
            ensures
                ready_prefix(updated, lines@.len() as int),
                self.entries@ == updated.subrange(lines@.len() as int, updated.len() as int),
                forall|j: int| 0 <= j < lines@.len() ==> line_of(updated[j], #[trigger] lines@[j]),
                self.phase == old(self).phase,
                self.path == old(self).path,
            decreases self.entries@.len(),
        {
            let ready = self.entries.len() > 0 && self.entries[0].outcome.is_some();
            if !ready {
                break;
            }
            let entry = self.entries.pop_front().unwrap();
            let ghost k = lines@.len() as int;
            assert(entry == updated[k]);
            let recorded = match &entry.outcome {
                Some(o) => record_of(Some(o)),
                None => record_of(None),
            };
            lines.push(Line { command: entry.command, outcome: recorded });
            assert(self.entries@ =~= updated.subrange(k + 1, updated.len() as int));
        }
        assert(self.phase_spec() == old(self).phase_spec());
        assert(self.path_spec() == old(self).path_spec());
        if lines.len() > 0 {
            let ghost l = lines@;
            let r = Some(Operation::Append(lines));
            assert(r->0->Append_0@ == l);
            assert(forall|j: int| 0 <= j < l.len() ==> line_of(updated[j], #[trigger] l[j]));
            r
        } else {
            assert(updated.subrange(0, updated.len() as int) =~= updated);
            None
        }
    }

    /// Handles a worker reply. A start that succeeded makes the recording
    /// active; any start or stop reply ends the transition and completes its
    /// request; a failure of the active recording ends it and is reported.
    pub fn reply(&mut self, reply: Reply) -> (notices: Vec<Notice>)
        requires
            reply is Started ==> old(self).phase_spec() is Starting,
            reply is Stopped ==> old(self).phase_spec() is Stopping,
        ensures
            reply_effect(*old(self), *final(self), reply, notices@),
    {
        let mut notices: Vec<Notice> = Vec::new();
        match reply {
            Reply::Started(result) => {
                let mut phase = Phase::Idle;
                std::mem::swap(&mut phase, &mut self.phase);
                if let Phase::Starting { id, path } = phase {
                    match result {
                        Ok(()) => {
                            let mut output = String::from_str("{\"path\":");
                            let quoted = json_string(path.as_str());
                            output.append(quoted.as_str());
                            output.append("}");
                            self.path = path;
                            self.phase = Phase::Active;
                            notices.push(Notice::Complete { id, outcome: Ok(output) });
                        },
                        Err(e) => {
                            notices.push(Notice::Complete { id, outcome: Err(e) });
                        },
                    }
                }
            },
            Reply::Stopped(result) => {
                let mut phase = Phase::Idle;
                std::mem::swap(&mut phase, &mut self.phase);
                if let Phase::Stopping { id, path } = phase {
                    match result {
                        Ok(count) => {
                            let mut output = String::from_str("{\"path\":");
                            let quoted = json_string(path.as_str());
                            output.append(quoted.as_str());
                            output.append(",\"recorded_commands\":");
                            let digits = decimal(count);
                            output.append(digits.as_str());
                            output.append("}");
                            notices.push(Notice::Complete { id, outcome: Ok(output) });
                        },
                        Err(e) => {
                            notices.push(Notice::Complete { id, outcome: Err(e) });
                        },
                    }
                }
            },
            Reply::Failed { path, message } => {
                if matches!(self.phase, Phase::Active) {
                    self.phase = Phase::Idle;
                }
                self.entries.clear();
                notices.push(Notice::Event(Event::RecordingFailed { path, message }));
            },
            Reply::Ended => {},
        }
        notices
    }

    /// Drains the buffer for the end of the session: every buffered command is
    /// persisted, those without an outcome as unanswered.
    pub fn end(&mut self) -> (r: Operation)
        ensures
            end_effect(*old(self), *final(self), r),
    {
        let ghost s0 = self.entries@;
        let mut lines: Vec<Line> = Vec::new();
        while self.entries.len() > 0
            invariant
                0 <= lines@.len() <= s0.len(),
                self.entries@ == s0.subrange(lines@.len() as int, s0.len() as int),
                forall|j: int| 0 <= j < lines@.len() ==> line_of(s0[j], #[trigger] lines@[j]),
                self.phase == old(self).phase,
                self.path == old(self).path,
            decreases self.entries@.len(),
        {
            let entry = self.entries.pop_front().unwrap();
            let ghost k = lines@.len() as int;
            let recorded = match &entry.outcome {
                Some(o) => record_of(Some(o)),
                None => record_of(None),
            };
            lines.push(Line { command: entry.command, outcome: recorded });
            assert(self.entries@ =~= s0.subrange(k + 1, s0.len() as int));
        }
        Operation::End(lines)
    }

    /// What the session learns when the worker can no longer be reached: an
    /// active or changing recording has failed.
    pub fn worker_lost(&self) -> (notices: Vec<Notice>)
        ensures
            if self.phase_spec() is Idle {
                notices@.len() == 0
            } else {
                &&& notices@.len() == 1
                &&& notices@[0] is Event
                &&& notices@[0]->Event_0 is RecordingFailed
                &&& notices@[0]->Event_0->RecordingFailed_path@ == self.path_spec()
                &&& notices@[0]->Event_0->RecordingFailed_message@
                    == "recording worker disconnected"@
            },
    {
        let mut notices: Vec<Notice> = Vec::new();
        if self.busy() {
            notices.push(
                Notice::Event(
                    Event::RecordingFailed {
                        path: self.path.clone(),
                        message: String::from_str("recording worker disconnected"),
                    },
                ),
            );
        }
        notices
    }
}

/// What a recorder becomes when a control that the worker never received is
/// undone: a start it began returns to idle, a stop it began returns to active.
pub open spec fn withdraw_effect(r0: Recorder, r1: Recorder, id: u64) -> bool {
    &&& r1.entries_spec() == r0.entries_spec()
    &&& r1.path_spec() == r0.path_spec()
    &&& r1.phase_spec() == match r0.phase_spec() {
        Phase::Starting { id: started, .. } => if started == id {
            Phase::Idle
        } else {
            r0.phase_spec()
        },
        Phase::Stopping { id: stopped, .. } => if stopped == id {
            Phase::Active
        } else {
            r0.phase_spec()
        },
        other => other,
    }
}

/// What a worker reply does to a recorder (`r0` before, `r1` after) and the
/// notices it yields: a start or stop reply completes its control request and
/// ends the transition; a failure ends an active recording and is an event.
pub open spec fn reply_effect(r0: Recorder, r1: Recorder, reply: Reply, notices: Seq<Notice>) -> bool {
    match reply {
        Reply::Started(result) => {
            let (id, path) = (
                r0.phase_spec()->Starting_id,
                r0.phase_spec()->Starting_path,
            );
            &&& notices.len() == 1
            &&& notices[0] is Complete
            &&& notices[0]->Complete_id == id
            &&& r1.entries_spec() == r0.entries_spec()
            &&& match result {
                Ok(_) => {
                    &&& r1.phase_spec() is Active
                    &&& r1.path_spec() == path@
                    &&& notices[0]->Complete_outcome is Ok
                    &&& notices[0]->Complete_outcome->Ok_0@ == started_output(path@)
                },
                Err(e) => {
                    &&& r1.phase_spec() is Idle
                    &&& r1.path_spec() == r0.path_spec()
                    &&& notices[0]->Complete_outcome == Err::<String, Error>(e)
                },
            }
        },
        Reply::Stopped(result) => {
            let (id, path) = (
                r0.phase_spec()->Stopping_id,
                r0.phase_spec()->Stopping_path,
            );
            &&& notices.len() == 1
            &&& notices[0] is Complete
            &&& notices[0]->Complete_id == id
            &&& r1.phase_spec() is Idle
            &&& r1.path_spec() == r0.path_spec()
            &&& r1.entries_spec() == r0.entries_spec()
            &&& match result {
                Ok(count) => {
                    &&& notices[0]->Complete_outcome is Ok
                    &&& notices[0]->Complete_outcome->Ok_0@ == stopped_output(
                        path@,
                        count,
                    )
                },
                Err(e) => notices[0]->Complete_outcome == Err::<String, Error>(e),
            }
        },
        Reply::Failed { path, message } => {
            &&& notices == seq![Notice::Event(Event::RecordingFailed { path, message })]
            &&& r1.entries_spec().len() == 0
            &&& r1.path_spec() == r0.path_spec()
            &&& r1.phase_spec() == if r0.phase_spec() is Active {
                Phase::Idle
            } else {
                r0.phase_spec()
            }
        },
        Reply::Ended => {
            &&& notices.len() == 0
            &&& r1.phase_spec() == r0.phase_spec()
            &&& r1.path_spec() == r0.path_spec()
            &&& r1.entries_spec() == r0.entries_spec()
        },
    }
}

/// The end of a session: the buffer is drained into the final lines, in
/// order, those without an outcome as unanswered; phase and path stay.
pub open spec fn end_effect(r0: Recorder, r1: Recorder, r: Operation) -> bool {
    &&& r1.phase_spec() == r0.phase_spec()
    &&& r1.path_spec() == r0.path_spec()
    &&& r1.entries_spec().len() == 0
    &&& r is End
    &&& r->End_0@.len() == r0.entries_spec().len()
    &&& forall|j: int|
        0 <= j < r->End_0@.len() ==> line_of(r0.entries_spec()[j], #[trigger] r->End_0@[j])
}

/// A command sent to the game is buffered, with no outcome yet, exactly when
/// a recording is active and the command is recordable.
pub open spec fn record_effect(r0: Recorder, r1: Recorder, id: u64, command: Command) -> bool {
    &&& r1.phase_spec() == r0.phase_spec()
    &&& r1.path_spec() == r0.path_spec()
    &&& r1.entries_spec() == if r0.phase_spec() is Active && recordable(command) {
        r0.entries_spec().push(Buffered { id, command, outcome: None })
    } else {
        r0.entries_spec()
    }
}

/// The outcome of `id` is stored and the leading buffered commands whose
/// outcome is known are released, in acceptance order, as one append; the
/// rest of the buffer stays.
pub open spec fn terminal_effect(
    r0: Recorder,
    r1: Recorder,
    id: u64,
    outcome: Outcome,
    r: Option<Operation>,
) -> bool {
    let updated = with_outcome(r0.entries_spec(), id, outcome);
    &&& r1.phase_spec() == r0.phase_spec()
    &&& r1.path_spec() == r0.path_spec()
    &&& match r {
        None => {
            &&& r1.entries_spec() == updated
            &&& ready_prefix(updated, 0)
        },
        Some(Operation::Append(lines)) => {
            &&& lines@.len() > 0
            &&& ready_prefix(updated, lines@.len() as int)
            &&& r1.entries_spec() == updated.subrange(lines@.len() as int, updated.len() as int)
            &&& forall|j: int| 0 <= j < lines@.len() ==> line_of(updated[j], #[trigger] lines@[j])
        },
        _ => false,
    }
}

/// An accepted control: a start opens the command's path and waits for the
/// worker's acknowledgement; a stop closes the current file. The buffer and
/// the current path stay.
pub open spec fn control_accepted(r0: Recorder, r1: Recorder, id: u64, command: Command, op: Operation) -> bool {
    &&& r1.entries_spec() == r0.entries_spec()
    &&& r1.path_spec() == r0.path_spec()
    &&& match command {
        Command::RecordingStart { path } => {
            &&& op == Operation::Start(path)
            &&& r1.phase_spec() == (Phase::Starting { id, path })
        },
        _ => {
            &&& op == Operation::Stop
            &&& r1.phase_spec() is Stopping
            &&& r1.phase_spec()->Stopping_id == id
            &&& r1.phase_spec()->Stopping_path@ == r0.path_spec()
        },
    }
}

/// A recording start that the worker acknowledges: an accepted start asks the
/// worker to open the command's path and holds the recorder in transition; the
/// acknowledgement completes the start request, with the path as its output
/// when the file opened and with the worker's error otherwise, and ends the
/// transition: active on that path, or idle again. The buffer is untouched.
pub proof fn start_then_started(
    r0: Recorder,
    r1: Recorder,
    r2: Recorder,
    id: u64,
    path: String,
    op: Operation,
    result: Result<(), Error>,
    notices: Seq<Notice>,
)
    requires
        control_error(r0.phase_spec(), Command::RecordingStart { path }, false) is None,
        control_accepted(r0, r1, id, Command::RecordingStart { path }, op),
        reply_effect(r1, r2, Reply::Started(result), notices),
    ensures
        r0.phase_spec() is Idle,
        op == Operation::Start(path),
        r1.phase_spec() == (Phase::Starting { id, path }),
        notices.len() == 1,
        notices[0] is Complete,
        notices[0]->Complete_id == id,
        r2.entries_spec() == r0.entries_spec(),
        result is Ok ==> {
            &&& r2.phase_spec() is Active
            &&& r2.path_spec() == path@
            &&& notices[0]->Complete_outcome is Ok
            &&& notices[0]->Complete_outcome->Ok_0@ == started_output(path@)
        },
        result is Err ==> {
            &&& r2.phase_spec() is Idle
            &&& notices[0]->Complete_outcome == Err::<String, Error>(result->Err_0)
        },
{
}

/// A recording stop that the worker acknowledges: an accepted stop asks the
/// worker to close the file, and the acknowledgement completes the stop request
/// with the path and the number of commands written, or with the worker's
/// error; either way the recorder is idle afterwards. The buffer is untouched.
pub proof fn stop_then_stopped(
    r0: Recorder,
    r1: Recorder,
    r2: Recorder,
    id: u64,
    op: Operation,
    result: Result<u64, Error>,
    notices: Seq<Notice>,
)
    requires
        control_error(r0.phase_spec(), Command::RecordingStop, false) is None,
        control_accepted(r0, r1, id, Command::RecordingStop, op),
        reply_effect(r1, r2, Reply::Stopped(result), notices),
    ensures
        r0.phase_spec() is Active,
        op == Operation::Stop,
        r1.phase_spec() is Stopping,
        r2.phase_spec() is Idle,
        notices.len() == 1,
        notices[0] is Complete,
        notices[0]->Complete_id == id,
        r2.entries_spec() == r0.entries_spec(),
        result is Ok ==> {
            &&& notices[0]->Complete_outcome is Ok
            &&& notices[0]->Complete_outcome->Ok_0@ == stopped_output(r0.path_spec(), result->Ok_0)
        },
        result is Err ==> notices[0]->Complete_outcome == Err::<String, Error>(result->Err_0),
{
}

/// A buffer always waits on its first command: a release leaves a buffer
/// whose first command has no outcome yet, and buffering a command keeps that so.
pub proof fn buffer_waits_on_its_first(
    r0: Recorder,
    r1: Recorder,
    id: u64,
    outcome: Outcome,
    released: Option<Operation>,
    r2: Recorder,
    next: u64,
    command: Command,
)
    requires
        terminal_effect(r0, r1, id, outcome, released),
        record_effect(r1, r2, next, command),
    ensures
        r1.entries_spec().len() > 0 ==> r1.entries_spec()[0].outcome is None,
        r2.entries_spec().len() > 0 ==> r2.entries_spec()[0].outcome is None,
{
    let updated = with_outcome(r0.entries_spec(), id, outcome);
    match released {
        Some(Operation::Append(lines)) => {
            let k = lines@.len() as int;
            assert(ready_prefix(updated, k));
            if k < updated.len() {
                assert(r1.entries_spec()[0] == updated[k]);
            }
        },
        _ => {},
    }
    if r1.entries_spec().len() > 0 {
        assert(r2.entries_spec()[0] == r1.entries_spec()[0]);
    }
}

/// Lines are written in the order in which commands were sent, not in the
/// order in which they were answered. Two commands buffered by an active
/// recording, whose buffer waits on its first command (as every buffer left by
/// a release does): the outcome of the later one releases nothing. The outcome
/// of the earlier one then releases both, in sending order, as one append when
/// nothing was buffered before them; otherwise both wait, in sending order,
/// behind the earlier commands.
pub proof fn written_in_sending_order(
    r0: Recorder,
    r1: Recorder,
    r2: Recorder,
    r3: Recorder,
    r4: Recorder,
    i1: u64,
    c1: Command,
    i2: u64,
    c2: Command,
    o1: Outcome,
    o2: Outcome,
    a2: Option<Operation>,
    a1: Option<Operation>,
)
    requires
        r0.phase_spec() is Active,
        r0.entries_spec().len() > 0 ==> r0.entries_spec()[0].outcome is None,
        forall|j: int|
            0 <= j < r0.entries_spec().len() ==> (#[trigger] r0.entries_spec()[j]).id != i1
                && r0.entries_spec()[j].id != i2,
        recordable(c1),
        recordable(c2),
        i1 != i2,
        record_effect(r0, r1, i1, c1),
        record_effect(r1, r2, i2, c2),
        terminal_effect(r2, r3, i2, o2, a2),
        terminal_effect(r3, r4, i1, o1, a1),
    ensures
        ({
            let b = r0.entries_spec();
            let b1 = Buffered { id: i1, command: c1, outcome: Some(o1) };
            let b2 = Buffered { id: i2, command: c2, outcome: Some(o2) };
            &&& a2 is None
            &&& b.len() == 0 ==> {
                &&& a1 is Some
                &&& a1->0 is Append
                &&& a1->0->Append_0@.len() == 2
                &&& line_of(b1, a1->0->Append_0@[0])
                &&& line_of(b2, a1->0->Append_0@[1])
                &&& r4.entries_spec().len() == 0
            }
            &&& b.len() > 0 ==> a1 is None && r4.entries_spec() == b.push(b1).push(b2)
        }),
{
    let b = r0.entries_spec();
    let n = b.len() as int;
    let w1 = Buffered { id: i1, command: c1, outcome: None };
    let w2 = Buffered { id: i2, command: c2, outcome: None };
    let b1o = Buffered { id: i1, command: c1, outcome: Some(o1) };
    let b2o = Buffered { id: i2, command: c2, outcome: Some(o2) };
    assert(r2.entries_spec() =~= b.push(w1).push(w2));
    let u2 = with_outcome(r2.entries_spec(), i2, o2);
    assert(u2 =~= b.push(w1).push(b2o)) by {
        assert forall|j: int| 0 <= j < u2.len() implies u2[j] == b.push(w1).push(b2o)[j] by {
            if j == n + 1 {
                assert forall|k: int| 0 <= k < j implies r2.entries_spec()[k].id != i2 by {
                    if k < n {
                        assert(r2.entries_spec()[k] == b[k]);
                    }
                }
            }
        }
    }
    assert(u2[0].outcome is None);
    match a2 {
        Some(Operation::Append(lines)) => {
            assert(ready_prefix(u2, lines@.len() as int));
            assert(u2[0].outcome is Some);
        },
        _ => {},
    }
    assert(r3.entries_spec() =~= u2) by {
        assert(u2.subrange(0, u2.len() as int) =~= u2);
    }
    let u1 = with_outcome(r3.entries_spec(), i1, o1);
    assert(u1 =~= b.push(b1o).push(b2o)) by {
        assert forall|j: int| 0 <= j < u1.len() implies u1[j] == b.push(b1o).push(b2o)[j] by {
            if j == n {
                assert forall|k: int| 0 <= k < j implies r3.entries_spec()[k].id != i1 by {
                    assert(r3.entries_spec()[k] == b[k]);
                }
            }
            if j == n + 1 {
                assert(r3.entries_spec()[n].id == i1);
            }
        }
    }
    if n > 0 {
        assert(u1[0].outcome is None);
        match a1 {
            Some(Operation::Append(lines)) => {
                assert(ready_prefix(u1, lines@.len() as int));
                assert(u1[0].outcome is Some);
            },
            _ => {},
        }
        assert(u1.subrange(0, u1.len() as int) =~= u1);
    } else {
        match a1 {
            Some(Operation::Append(lines)) => {
                assert(ready_prefix(u1, lines@.len() as int));
                if lines@.len() < 2 {
                    assert(u1[lines@.len() as int].outcome is None);
                }
            },
            _ => {
                assert(ready_prefix(u1, 0));
            },
        }
    }
}

} // verus!
