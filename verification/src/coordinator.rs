//! The decisions of the session coordinator. The application runs its loop:
//! it reads the game's pipes, polls the process, relays operations and hands
//! each observation to this module, which decides what happens next.
use vstd::prelude::*;
use std::collections::{BTreeMap, VecDeque};
use crate::command::{Command, command_name};
use crate::error::{Error, ErrorView};
use crate::history::Outcome;
use crate::json::{raw_request_id, raw_request_id_of};
use crate::protocol::{Capabilities, Message, VERSION, message_id};
use crate::recording::{
    Notice, Operation, Phase, Recorder, Reply, control_accepted, control_error, end_effect, record_effect, reply_effect,
    terminal_effect, withdraw_effect,
};
use crate::session::{
    EndReason,
    Event,
    Ledger,
    SessionState,
    events_offer,
    history_accept,
    history_completed,
    ledger_complete,
};
use crate::text::{append_bounded, bounded_tail};

verus! {

broadcast use {vstd::std_specs::btree::group_btree_axioms, vstd::laws_cmp::group_laws_cmp};

/// The identifier reserved for the shutdown request.
pub const SHUTDOWN_ID: u64 = 0xffff_ffff_ffff_ffff;

/// Bytes of start-up diagnostics kept before the oldest are dropped.
pub const DIAGNOSTICS_LIMIT: usize = 16384;

/// Characters of start-up diagnostics kept when the limit is exceeded.
pub const DIAGNOSTICS_KEEP: usize = 8192;

/// How the game process exited.
#[derive(Debug)]
pub struct Exit {
    pub success: bool,
    pub status: String,
}

/// What polling the game process showed.
#[derive(Debug)]
pub enum Wait {
    Running,
    Exited(Exit),
    Failed(String),
}

/// What the loop does after supervising the process.
#[derive(Debug, PartialEq, Eq, Structural, Clone, Copy)]
pub enum Next {
    /// Go on to relay operations.
    Continue,
    /// Wait briefly and start the next iteration: the pipes are still draining.
    Retry,
    /// Leave the loop.
    Stop,
}

/// The decision after supervising the process.
#[derive(Debug)]
pub struct Supervision {
    /// Whether the process group must be terminated now.
    pub terminate: bool,
    pub next: Next,
}

/// What happens to an accepted command.
#[derive(Debug)]
pub enum Admitted {
    /// Nothing: the request was refused.
    Refused,
    /// A recording control, to be decided by [`Coordinator::control`].
    Control(u64, Command),
    /// Held back behind a recording file transition or earlier held commands.
    Deferred,
    /// To be issued now through [`Coordinator::dispatch`].
    Send(u64, Command),
}

/// The answer to an operation and what follows from it.
#[derive(Debug)]
pub struct Admission {
    pub reply: Result<u64, Error>,
    pub action: Admitted,
}

/// The coordinator's state, as a mathematical value.
pub struct CoordinatorView {
    pub initialized: bool,
    /// Commands sent to the game and not yet answered.
    pub active: Map<u64, Command>,
    /// The next normal request identifier.
    pub next: u64,
    /// The outcome of the shutdown request, once answered.
    pub shutdown: Option<Outcome>,
    /// Whether shutdown was accepted.
    pub stopping: bool,
    /// Why the session ends, once known.
    pub reason: Option<EndReason>,
    /// Pipes reported closed.
    pub closed: u32,
    pub exit: Option<Exit>,
    pub diagnostics: Seq<char>,
    pub recorder: Recorder,
    /// Commands held back, oldest first.
    pub deferred: Seq<(u64, Command)>,
}

/// The error that refuses an operation, if it is refused. Nothing is accepted
/// after shutdown; shutdown needs no pending, held or file-bound work and no
/// recording; normal identifiers are finite.
pub open spec fn admission_error(c: CoordinatorView, command: Command) -> Option<ErrorView> {
    let shutdown = command is Shutdown;
    if c.stopping {
        Some(ErrorView::Ended)
    } else if shutdown && (!c.active.is_empty() || c.deferred.len() > 0
        || c.recorder.phase_spec() is Starting || c.recorder.phase_spec() is Stopping) {
        Some(
            ErrorView::ShutdownBlocked {
                code: "shutdown_commands_pending"@,
                message: "commands are still pending"@,
            },
        )
    } else if shutdown && !(c.recorder.phase_spec() is Idle) {
        Some(
            ErrorView::ShutdownBlocked {
                code: "shutdown_recording_active"@,
                message: "stop recording before shutdown"@,
            },
        )
    } else if shutdown {
        None
    } else if c.next == SHUTDOWN_ID {
        Some(ErrorView::RequestIdExhausted)
    } else {
        None
    }
}

/// The identifier an accepted operation gets: the reserved one for shutdown,
/// the next normal one otherwise.
pub open spec fn admitted_id(c: CoordinatorView, command: Command) -> u64 {
    if command is Shutdown {
        SHUTDOWN_ID
    } else {
        c.next
    }
}

/// What deciding an operation does to the coordinator (`c0` before, `c1`
/// after) and how it is answered. A refused operation changes nothing. An
/// accepted one gets its identifier, a normal one advancing the next; shutdown
/// makes the session stop. A recording control goes to the recorder; a
/// command waits behind a recording file transition or earlier held commands,
/// and is otherwise issued at once.
pub open spec fn admission_effect(
    c0: CoordinatorView,
    c1: CoordinatorView,
    command: Command,
    a: Admission,
) -> bool {
    match admission_error(c0, command) {
        Some(e) => {
            &&& a.reply is Err
            &&& a.reply->Err_0@ == e
            &&& a.action is Refused
            &&& c1 == c0
        },
        None => {
            let shutdown = command is Shutdown;
            let id = admitted_id(c0, command);
            &&& a.reply == Ok::<u64, Error>(id)
            &&& c1.next == if shutdown {
                c0.next
            } else {
                (c0.next + 1) as u64
            }
            &&& c1.stopping == (c0.stopping || shutdown)
            &&& c1.initialized == c0.initialized && c1.active == c0.active && c1.shutdown
                == c0.shutdown && c1.reason == c0.reason && c1.closed == c0.closed && c1.exit
                == c0.exit && c1.diagnostics == c0.diagnostics && c1.recorder == c0.recorder
            &&& if command is RecordingStart || command is RecordingStop {
                a.action == Admitted::Control(id, command) && c1.deferred == c0.deferred
            } else if c0.recorder.phase_spec() is Starting || c0.recorder.phase_spec() is Stopping
                || c0.deferred.len() > 0 {
                a.action is Deferred && c1.deferred == c0.deferred.push((id, command))
            } else {
                a.action == Admitted::Send(id, command) && c1.deferred == c0.deferred
            }
        },
    }
}

/// Whether `outcome` is how the answer `decoded` ends the accepted `command`:
/// a completion with the command's name and an output that fits it; a
/// rejection with the command's name; or a protocol error. Anything else is an
/// invalid response.
pub open spec fn response_outcome(
    command: Command,
    decoded: Option<Message>,
    output_valid: bool,
    outcome: Outcome,
) -> bool {
    match decoded {
        Some(Message::Completed { command: name, output, .. }) if name@ == command_name(command)
            && output_valid => outcome == Ok::<String, Error>(output),
        Some(Message::Rejected { command: name, error, .. }) if name@ == command_name(command) => {
            outcome == Err::<String, Error>(
                Error::Rejected { code: error.code, message: error.message },
            )
        },
        Some(Message::ProtocolError { error, .. }) => outcome == Err::<String, Error>(
            Error::Protocol { code: error.code, message: error.message },
        ),
        _ => outcome is Err && outcome->Err_0@ == (ErrorView::Protocol {
            code: "invalid_response"@,
            message: "response does not match the accepted command"@,
        }),
    }
}

/// The event for a line that answers no open request.
pub open spec fn unsolicited_event(decoded: Option<Message>, event: Event) -> bool {
    match event {
        Event::ProtocolError { code, message } => match decoded {
            Some(Message::Ready { .. }) => code@ == "unexpected_ready"@ && message@
                == "additional Ready ignored"@,
            Some(Message::ProtocolError { error, .. }) => code == error.code && message
                == error.message,
            _ => code@ == "invalid_response"@ && message@ == "response has no open request"@,
        },
        _ => false,
    }
}

/// The decisions of one session's coordinator.
pub struct Coordinator {
    initialized: bool,
    active: BTreeMap<u64, Command>,
    next: u64,
    shutdown: Option<Outcome>,
    stopping: bool,
    reason: Option<EndReason>,
    closed: u32,
    exit: Option<Exit>,
    diagnostics: String,
    recorder: Recorder,
    deferred: VecDeque<(u64, Command)>,
}

impl Coordinator {
    /// The coordinator's state.
    pub closed spec fn view(&self) -> CoordinatorView {
        CoordinatorView {
            initialized: self.initialized,
            active: self.active@,
            next: self.next,
            shutdown: self.shutdown,
            stopping: self.stopping,
            reason: self.reason,
            closed: self.closed,
            exit: self.exit,
            diagnostics: self.diagnostics@,
            recorder: self.recorder,
            deferred: self.deferred@,
        }
    }

    /// A coordinator before the game's handshake.
    pub fn new() -> (c: Coordinator)
        ensures
            !c.view().initialized,
            c.view().active.is_empty(),
            c.view().next == 1,
            c.view().shutdown is None,
            !c.view().stopping,
            c.view().reason is None,
            c.view().closed == 0,
            c.view().exit is None,
            c.view().diagnostics.len() == 0,
            c.view().recorder.phase_spec() is Idle,
            c.view().recorder.entries_spec().len() == 0,
            c.view().deferred.len() == 0,
    {
        Coordinator {
            initialized: false,
            active: BTreeMap::new(),
            next: 1,
            shutdown: None,
            stopping: false,
            reason: None,
            closed: 0,
            exit: None,
            diagnostics: String::new(),
            recorder: Recorder::new(),
            deferred: VecDeque::new(),
        }
    }

    /// Whether the game completed its handshake.
    pub fn initialized(&self) -> (r: bool)
        ensures
            r == self.view().initialized,
    {
        self.initialized
    }

    /// Whether shutdown was accepted.
    pub fn stopping(&self) -> (r: bool)
        ensures
            r == self.view().stopping,
    {
        self.stopping
    }

    /// Why the session ends, once known.
    pub fn reason(&self) -> (r: &Option<EndReason>)
        ensures
            *r == self.view().reason,
    {
        &self.reason
    }

    /// How the process exited, once known.
    pub fn exit(&self) -> (r: &Option<Exit>)
        ensures
            *r == self.view().exit,
    {
        &self.exit
    }

    /// The start-up diagnostics kept so far.
    pub fn diagnostics(&self) -> (r: &str)
        ensures
            r@ == self.view().diagnostics,
    {
        self.diagnostics.as_str()
    }

    /// The recording state.
    pub fn recorder(&self) -> (r: &Recorder)
        ensures
            *r == self.view().recorder,
    {
        &self.recorder
    }

    /// The first line decides the handshake: only a Ready message of the
    /// supported version initializes the session.
    pub fn handshake(&mut self, line: &str, decoded: Option<Message>) -> (r: Result<
        Capabilities,
        Error,
    >)
        requires
            !old(self).view().initialized,
        ensures
            match decoded {
                Some(Message::Ready { version, capabilities }) => if version == VERSION {
                    r == Ok::<Capabilities, Error>(capabilities) && final(self).view() == (
                    CoordinatorView { initialized: true, ..old(self).view() })
                } else {
                    &&& r is Err
                    &&& r->Err_0@ == (ErrorView::Protocol {
                        code: "unsupported_protocol_version"@,
                        message: "expected v3"@,
                    })
                    &&& final(self).view() == old(self).view()
                },
                _ => {
                    &&& r is Err
                    &&& r->Err_0@ == (ErrorView::Protocol {
                        code: "invalid_ready"@,
                        message: line@,
                    })
                    &&& final(self).view() == old(self).view()
                },
            },
    {
        match decoded {
            Some(Message::Ready { version, capabilities }) => {
                if version == VERSION {
                    self.initialized = true;
                    Ok(capabilities)
                } else {
                    Err(
                        Error::Protocol {
                            code: String::from_str("unsupported_protocol_version"),
                            message: String::from_str("expected v3"),
                        },
                    )
                }
            },
            _ => Err(
                Error::Protocol {
                    code: String::from_str("invalid_ready"),
                    message: String::from_str(line),
                },
            ),
        }
    }

    /// The open request that a line answers: the request its message names,
    /// or else the `request_id` member of the raw line; only a request that is
    /// still open counts.
    pub fn correlate(&self, line: &str, decoded: &Option<Message>) -> (r: Option<u64>)
        ensures
            ({
                let named = match *decoded {
                    Some(m) => message_id(m),
                    None => None,
                };
                let id = if named is Some {
                    named
                } else {
                    raw_request_id_of(line@)
                };
                r == if id is Some && self.view().active.contains_key(id->0) {
                    id
                } else {
                    None
                }
            }),
    {
        let named = match decoded {
            Some(m) => m.id(),
            None => None,
        };
        let id = match named {
            Some(id) => Some(id),
            None => raw_request_id(line),
        };
        match id {
            Some(id) => if self.active.contains_key(&id) {
                Some(id)
            } else {
                None
            },
            None => None,
        }
    }

    /// The open command with identifier `id`.
    pub fn active_command(&self, id: u64) -> (r: Option<&Command>)
        ensures
            match r {
                Some(c) => self.view().active.contains_key(id) && *c == self.view().active[id],
                None => !self.view().active.contains_key(id),
            },
    {
        self.active.get(&id)
    }

    /// Ends the open request `id` with the answer `decoded`. The shutdown
    /// answer is kept for the end of the session; any other outcome completes
    /// its request and, while recording, releases what can be written in order.
    pub fn respond(
        &mut self,
        state: &mut SessionState,
        id: u64,
        decoded: Option<Message>,
        output_valid: bool,
    ) -> (r: Option<Operation>)
        requires
            old(self).view().active.contains_key(id),
            old(state).wf(),
        ensures
            final(state).wf(),
            final(state).events_spec() == old(state).events_spec(),
            ({
                let c0 = old(self).view();
                let c1 = final(self).view();
                &&& c1.active == c0.active.remove(id)
                &&& c1.initialized == c0.initialized && c1.next == c0.next && c1.stopping
                    == c0.stopping && c1.reason == c0.reason && c1.closed == c0.closed && c1.exit
                    == c0.exit && c1.diagnostics == c0.diagnostics && c1.deferred == c0.deferred
                &&& if id == SHUTDOWN_ID {
                    &&& c1.shutdown is Some
                    &&& response_outcome(c0.active[id], decoded, output_valid, c1.shutdown->0)
                    &&& c1.recorder == c0.recorder
                    &&& r is None
                    &&& final(state).ledger() == old(state).ledger()
                    &&& final(state).history_spec() == old(state).history_spec()
                } else {
                    &&& exists|outcome: Outcome|
                        {
                            &&& response_outcome(c0.active[id], decoded, output_valid, outcome)
                            &&& final(state).ledger() == ledger_complete(
                                old(state).ledger(),
                                id,
                                outcome,
                            )
                            &&& history_completed(
                                old(state).history_spec(),
                                final(state).history_spec(),
                                id,
                                outcome,
                            )
                            &&& terminal_effect(c0.recorder, c1.recorder, id, outcome, r)
                        }
                        &&& c1.shutdown == c0.shutdown
                }
            }),
            match decoded {
                Some(Message::Rejected { command: name, error, .. }) => name@ == command_name(
                    old(self).view().active[id],
                ) ==> {
                    let outcome = Err::<String, Error>(
                        Error::Rejected { code: error.code, message: error.message },
                    );
                    if id == SHUTDOWN_ID {
                        final(self).view().shutdown == Some(outcome)
                    } else {
                        &&& final(state).ledger() == ledger_complete(old(state).ledger(), id, outcome)
                        &&& history_completed(
                            old(state).history_spec(),
                            final(state).history_spec(),
                            id,
                            outcome,
                        )
                    }
                },
                _ => true,
            },
    {
        let command = self.active.remove(&id).unwrap();
        let outcome: Outcome = match decoded {
            Some(Message::Completed { command: name, output, .. }) => {
                if crate::text::str_eq(name.as_str(), command.name()) && output_valid {
                    Ok(output)
                } else {
                    Err(invalid_response())
                }
            },
            Some(Message::Rejected { command: name, error, .. }) => {
                if crate::text::str_eq(name.as_str(), command.name()) {
                    Err(Error::Rejected { code: error.code, message: error.message })
                } else {
                    Err(invalid_response())
                }
            },
            Some(Message::ProtocolError { error, .. }) => Err(
                Error::Protocol { code: error.code, message: error.message },
            ),
            _ => Err(invalid_response()),
        };
        if id == SHUTDOWN_ID {
            self.shutdown = Some(outcome);
            None
        } else {
            let op = self.recorder.terminal(id, &outcome);
            state.complete(id, outcome);
            op
        }
    }

    /// Reports a line that answers no open request as a protocol event.
    pub fn unsolicited(&mut self, state: &mut SessionState, decoded: Option<Message>)
        ensures
            final(state).ledger() == old(state).ledger(),
            final(state).history_spec() == old(state).history_spec(),
            final(state).wf() == old(state).wf(),
            exists|event: Event|
                {
                    &&& unsolicited_event(decoded, event)
                    &&& (final(state).events_spec(), final(self).view().reason) == events_offer(
                        old(state).events_spec(),
                        old(self).view().reason,
                        event,
                    )
                },
            final(self).view() == (CoordinatorView {
                reason: final(self).view().reason,
                ..old(self).view()
            }),
    {
        let event = match decoded {
            Some(Message::Ready { .. }) => Event::ProtocolError {
                code: String::from_str("unexpected_ready"),
                message: String::from_str("additional Ready ignored"),
            },
            Some(Message::ProtocolError { error, .. }) => Event::ProtocolError {
                code: error.code,
                message: error.message,
            },
            _ => Event::ProtocolError {
                code: String::from_str("invalid_response"),
                message: String::from_str("response has no open request"),
            },
        };
        let ghost ev = event;
        assert(unsolicited_event(decoded, ev));
        state.push_event(&mut self.reason, event);
    }

    /// Keeps start-up diagnostics, bounded to their most recent part.
    pub fn diagnostic(&mut self, text: &str)
        ensures
            final(self).view() == (CoordinatorView {
                diagnostics: bounded_tail(
                    old(self).view().diagnostics + text@,
                    DIAGNOSTICS_LIMIT as nat,
                    DIAGNOSTICS_KEEP as nat,
                ),
                ..old(self).view()
            }),
    {
        let mut taken = String::new();
        std::mem::swap(&mut taken, &mut self.diagnostics);
        self.diagnostics = append_bounded(taken, text, DIAGNOSTICS_LIMIT, DIAGNOSTICS_KEEP);
    }

    /// A pipe of the game closed. Unless shutdown was accepted or the process
    /// has already exited, a closed pipe ends the session.
    pub fn channel_closed(&mut self, channel: &str, process_exited: bool)
        ensures
            final(self).view().closed == if old(self).view().closed < u32::MAX {
                (old(self).view().closed + 1) as u32
            } else {
                old(self).view().closed
            },
            final(self).view().reason == if old(self).view().reason is None
                && !old(self).view().stopping && !process_exited {
                Some(EndReason::TransportClosed { channel: final(self).view().reason->0->TransportClosed_channel })
            } else {
                old(self).view().reason
            },
            old(self).view().reason is None && !old(self).view().stopping && !process_exited
                ==> final(self).view().reason->0->TransportClosed_channel@ == channel@,
            final(self).view() == (CoordinatorView {
                closed: final(self).view().closed,
                reason: final(self).view().reason,
                ..old(self).view()
            }),
    {
        if self.closed < u32::MAX {
            self.closed = self.closed + 1;
        }
        if !self.stopping && !process_exited && self.reason.is_none() {
            self.reason = Some(EndReason::TransportClosed { channel: String::from_str(channel) });
        }
    }

    /// A pipe of the game failed; the first cause ends the session.
    pub fn channel_failed(&mut self, channel: &str, message: String)
        ensures
            old(self).view().reason is None ==> final(self).view().reason is Some
                && final(self).view().reason->0 is TransportFailed
                && final(self).view().reason->0->TransportFailed_channel@ == channel@
                && final(self).view().reason->0->TransportFailed_message == message,
            old(self).view().reason is Some ==> final(self).view().reason == old(self).view().reason,
            final(self).view() == (CoordinatorView {
                reason: final(self).view().reason,
                ..old(self).view()
            }),
    {
        if self.reason.is_none() {
            self.reason = Some(
                EndReason::TransportFailed { channel: String::from_str(channel), message },
            );
        }
    }

    /// Whether an accepted shutdown already failed, which ends the loop at once.
    pub fn shutdown_failed(&self) -> (r: bool)
        ensures
            r == (self.view().stopping && self.view().shutdown is Some
                && self.view().shutdown->0 is Err),
    {
        self.stopping && match &self.shutdown {
            Some(Err(_)) => true,
            _ => false,
        }
    }

    /// Whether the process group must be terminated because the session ends.
    pub fn must_terminate(&self) -> (r: bool)
        ensures
            r == (self.view().reason is Some && self.view().exit is None),
    {
        self.reason.is_some() && self.exit.is_none()
    }

    /// Supervises the process once. An exit is kept and terminates the
    /// remaining process group; the loop retries until both pipes closed, then
    /// ends, with an exit as the end reason unless it was the successful end of
    /// an answered shutdown. A failed poll ends the session.
    pub fn supervise(&mut self, wait: Wait) -> (s: Supervision)
        ensures
            ({
                let c0 = old(self).view();
                let c1 = final(self).view();
                let exit = if c0.exit is Some {
                    Wait::Exited(c0.exit->0)
                } else {
                    wait
                };
                &&& c1.initialized == c0.initialized && c1.active == c0.active && c1.next == c0.next
                    && c1.shutdown == c0.shutdown && c1.stopping == c0.stopping && c1.closed
                    == c0.closed && c1.diagnostics == c0.diagnostics && c1.recorder == c0.recorder
                    && c1.deferred == c0.deferred
                &&& match exit {
                    Wait::Exited(e) => {
                        &&& s.terminate == c0.exit is None
                        &&& c1.exit == Some(e)
                        &&& if c0.closed < 2 {
                            s.next == Next::Retry && c1.reason == c0.reason
                        } else if c0.stopping && e.success && c0.shutdown is Some
                            && c0.shutdown->0 is Ok {
                            s.next == Next::Stop && c1.reason == c0.reason
                        } else {
                            &&& s.next == Next::Stop
                            &&& c0.reason is Some ==> c1.reason == c0.reason
                            &&& c0.reason is None ==> c1.reason == Some(
                                EndReason::ProcessExit { status: e.status },
                            )
                        }
                    },
                    Wait::Failed(message) => {
                        &&& !s.terminate
                        &&& s.next == Next::Stop
                        &&& c1.exit == c0.exit
                        &&& c1.reason is Some
                        &&& c1.reason->0 is TransportFailed
                        &&& c1.reason->0->TransportFailed_channel@ == "process"@
                        &&& c1.reason->0->TransportFailed_message == message
                    },
                    Wait::Running => {
                        &&& !s.terminate
                        &&& c1.exit == c0.exit
                        &&& c1.reason == c0.reason
                        &&& s.next == if c0.reason is Some {
                            Next::Stop
                        } else {
                            Next::Continue
                        }
                    },
                }
            }),
    {
        let mut stored: Option<Exit> = None;
        std::mem::swap(&mut stored, &mut self.exit);
        let known = stored.is_some();
        let observed = match stored {
            Some(e) => Wait::Exited(e),
            None => wait,
        };
        match observed {
            Wait::Exited(e) => {
                let ok_shutdown = match &self.shutdown {
                    Some(Ok(_)) => true,
                    _ => false,
                };
                let next = if self.closed < 2 {
                    Next::Retry
                } else if self.stopping && e.success && ok_shutdown {
                    Next::Stop
                } else {
                    if self.reason.is_none() {
                        self.reason = Some(EndReason::ProcessExit { status: e.status.clone() });
                    }
                    Next::Stop
                };
                self.exit = Some(e);
                Supervision { terminate: !known, next }
            },
            Wait::Failed(message) => {
                self.reason = Some(
                    EndReason::TransportFailed { channel: String::from_str("process"), message },
                );
                Supervision { terminate: false, next: Next::Stop }
            },
            Wait::Running => {
                let next = if self.reason.is_some() {
                    Next::Stop
                } else {
                    Next::Continue
                };
                Supervision { terminate: false, next }
            },
        }
    }

    /// Decides an operation. A refused operation changes nothing. An accepted
    /// one gets the next normal identifier, or the reserved one for shutdown,
    /// and enters the history as unanswered. A recording control goes to the
    /// recorder; a command waits behind a recording file transition or earlier
    /// held commands, and is otherwise issued at once.
    pub fn submit(&mut self, state: &mut SessionState, command: Command) -> (a: Admission)
        requires
            old(state).wf(),
        ensures
            final(state).wf(),
            final(state).ledger() == old(state).ledger(),
            final(state).events_spec() == old(state).events_spec(),
            admission_effect(old(self).view(), final(self).view(), command, a),
            admission_error(old(self).view(), command) is Some ==> final(state).history_spec()
                == old(state).history_spec(),
            admission_error(old(self).view(), command) is None ==> final(state).history_spec()
                == history_accept(
                old(state).history_spec(),
                admitted_id(old(self).view(), command),
                command,
            ),
    {
        let shutdown = command.is_shutdown();
        let transitioning = self.recorder.transitioning();
        let id = if self.stopping {
            Err(Error::Ended)
        } else if shutdown && (!self.active.is_empty() || self.deferred.len() > 0
            || transitioning) {
            Err(
                Error::ShutdownBlocked {
                    code: String::from_str("shutdown_commands_pending"),
                    message: String::from_str("commands are still pending"),
                },
            )
        } else if shutdown && self.recorder.busy() {
            Err(
                Error::ShutdownBlocked {
                    code: String::from_str("shutdown_recording_active"),
                    message: String::from_str("stop recording before shutdown"),
                },
            )
        } else if shutdown {
            self.stopping = true;
            Ok(SHUTDOWN_ID)
        } else if self.next == SHUTDOWN_ID {
            Err(Error::RequestIdExhausted)
        } else {
            let id = self.next;
            self.next = self.next + 1;
            Ok(id)
        };
        match id {
            Err(e) => Admission { reply: Err(e), action: Admitted::Refused },
            Ok(id) => {
                state.accept(id, command.duplicate());
                let action = if matches!(
                    command,
                    Command::RecordingStart { .. } | Command::RecordingStop
                ) {
                    Admitted::Control(id, command)
                } else if transitioning || self.deferred.len() > 0 {
                    self.deferred.push_back((id, command));
                    Admitted::Deferred
                } else {
                    Admitted::Send(id, command)
                };
                Admission { reply: Ok(id), action }
            },
        }
    }

    /// Decides an accepted recording control. A refused control completes its
    /// request with the rejection; an accepted one tells the worker what to do.
    pub fn control(&mut self, state: &mut SessionState, id: u64, command: &Command) -> (r: Option<
        Operation,
    >)
        requires
            old(state).wf(),
            command is RecordingStart || command is RecordingStop,
        ensures
            final(state).wf(),
            final(state).events_spec() == old(state).events_spec(),
            final(self).view().active == old(self).view().active,
            final(self).view().deferred == old(self).view().deferred,
            final(self).view().recorder.entries_spec() == old(self).view().recorder.entries_spec(),
            ({
                let pending = !old(self).view().active.is_empty()
                    || old(self).view().deferred.len() > 0;
                match control_error(old(self).view().recorder.phase_spec(), *command, pending) {
                    Some(ev) => {
                        &&& r is None
                        &&& final(self).view() == old(self).view()
                        &&& exists|e: Error|
                            {
                                &&& e@ == ev
                                &&& final(state).ledger() == ledger_complete(
                                    old(state).ledger(),
                                    id,
                                    Err(e),
                                )
                                &&& history_completed(
                                    old(state).history_spec(),
                                    final(state).history_spec(),
                                    id,
                                    Err(e),
                                )
                            }
                    },
                    None => {
                        &&& r is Some
                        &&& final(state).ledger() == old(state).ledger()
                        &&& final(state).history_spec() == old(state).history_spec()
                        &&& final(self).view() == (CoordinatorView {
                            recorder: final(self).view().recorder,
                            ..old(self).view()
                        })
                        &&& control_accepted(
                            old(self).view().recorder,
                            final(self).view().recorder,
                            id,
                            *command,
                            r->0,
                        )
                    },
                }
            }),
    {
        let pending = !self.active.is_empty() || self.deferred.len() > 0;
        match self.recorder.control(id, command, pending) {
            Ok(op) => Some(op),
            Err(e) => {
                let ghost ge = e;
                state.complete(id, Err(e));
                assert(ge@ == control_error(old(self).view().recorder.phase_spec(), *command, pending)->0);
                None
            },
        }
    }

    /// Undoes an accepted recording control whose operation the worker never received.
    pub fn withdraw_control(&mut self, id: u64)
        ensures
            final(self).view() == (CoordinatorView {
                recorder: final(self).view().recorder,
                ..old(self).view()
            }),
            withdraw_effect(old(self).view().recorder, final(self).view().recorder, id),
    {
        self.recorder.withdraw(id);
    }

    /// The next held command, once no recording file transition holds it.
    pub fn next_deferred(&mut self) -> (r: Option<(u64, Command)>)
        ensures
            ({
                let c0 = old(self).view();
                let c1 = final(self).view();
                if c0.initialized && !(c0.recorder.phase_spec() is Starting
                    || c0.recorder.phase_spec() is Stopping) && c0.deferred.len() > 0 {
                    r == Some(c0.deferred[0]) && c1 == (CoordinatorView {
                        deferred: c0.deferred.drop_first(),
                        ..c0
                    })
                } else {
                    r is None && c1 == c0
                }
            }),
    {
        if !self.initialized || self.recorder.transitioning() || self.deferred.len() == 0 {
            return None;
        }
        let ghost d0 = self.deferred@;
        let r = self.deferred.pop_front();
        assert(d0.subrange(1, d0.len() as int) =~= d0.drop_first());
        r
    }

    /// Issues a command to the game: it becomes open and, while recording, is
    /// buffered in acceptance order. Returns the command to encode and send.
    pub fn dispatch(&mut self, id: u64, command: Command) -> (r: Command)
        ensures
            r == command,
            final(self).view() == (CoordinatorView {
                active: old(self).view().active.insert(id, command),
                recorder: final(self).view().recorder,
                ..old(self).view()
            }),
            record_effect(old(self).view().recorder, final(self).view().recorder, id, command),
    {
        self.recorder.record(id, &command);
        self.active.insert(id, command.duplicate());
        command
    }

    /// The game's input pipe is gone: the command is no longer open, a normal
    /// request ends with an input/output failure, and the session ends.
    pub fn send_failed(&mut self, state: &mut SessionState, id: u64) -> (r: Option<Operation>)
        requires
            old(state).wf(),
        ensures
            final(state).wf(),
            final(state).events_spec() == old(state).events_spec(),
            final(self).view() == (CoordinatorView {
                active: old(self).view().active.remove(id),
                reason: final(self).view().reason,
                recorder: final(self).view().recorder,
                ..old(self).view()
            }),
            final(self).view().reason is Some,
            final(self).view().reason->0 is TransportClosed,
            final(self).view().reason->0->TransportClosed_channel@ == "stdin"@,
            id == SHUTDOWN_ID ==> final(state).ledger() == old(state).ledger() && r is None
                && final(self).view().recorder == old(self).view().recorder,
            id != SHUTDOWN_ID ==> exists|e: Error|
                {
                    &&& e@ == (ErrorView::Io { message: "game stdin writer disconnected"@ })
                    &&& final(state).ledger() == ledger_complete(old(state).ledger(), id, Err(e))
                    &&& terminal_effect(
                        old(self).view().recorder,
                        final(self).view().recorder,
                        id,
                        Err(e),
                        r,
                    )
                },
    {
        self.active.remove(&id);
        let mut op = None;
        if id != SHUTDOWN_ID {
            let outcome: Outcome = Err(
                Error::Io { message: String::from_str("game stdin writer disconnected") },
            );
            op = self.recorder.terminal(id, &outcome);
            state.complete(id, outcome);
        }
        self.reason = Some(EndReason::TransportClosed { channel: String::from_str("stdin") });
        op
    }

    /// Whether a worker reply fits the recorder's phase.
    pub fn accepts_reply(&self, reply: &Reply) -> (r: bool)
        ensures
            r == ((*reply is Started ==> self.view().recorder.phase_spec() is Starting) && (
            *reply is Stopped ==> self.view().recorder.phase_spec() is Stopping)),
    {
        match reply {
            Reply::Started(_) => matches!(self.recorder.phase(), Phase::Starting { .. }),
            Reply::Stopped(_) => matches!(self.recorder.phase(), Phase::Stopping { .. }),
            _ => true,
        }
    }

    /// Hands a worker reply to the recorder.
    pub fn recorder_reply(&mut self, reply: Reply) -> (notices: Vec<Notice>)
        requires
            reply is Started ==> old(self).view().recorder.phase_spec() is Starting,
            reply is Stopped ==> old(self).view().recorder.phase_spec() is Stopping,
        ensures
            final(self).view() == (CoordinatorView {
                recorder: final(self).view().recorder,
                ..old(self).view()
            }),
            reply_effect(old(self).view().recorder, final(self).view().recorder, reply, notices@),
    {
        self.recorder.reply(reply)
    }

    /// Drains the recording buffer at the end of the session.
    pub fn recorder_end(&mut self) -> (r: Operation)
        ensures
            final(self).view() == (CoordinatorView {
                recorder: final(self).view().recorder,
                ..old(self).view()
            }),
            end_effect(old(self).view().recorder, final(self).view().recorder, r),
    {
        self.recorder.end()
    }

    /// Applies a recorder notice: a completion completes its request, an event
    /// is offered to the event queue.
    pub fn notice(&mut self, state: &mut SessionState, notice: Notice)
        requires
            old(state).wf(),
        ensures
            final(state).wf(),
            match notice {
                Notice::Complete { id, outcome } => {
                    &&& final(state).ledger() == ledger_complete(old(state).ledger(), id, outcome)
                    &&& history_completed(
                        old(state).history_spec(),
                        final(state).history_spec(),
                        id,
                        outcome,
                    )
                    &&& final(state).events_spec() == old(state).events_spec()
                    &&& final(self).view() == old(self).view()
                },
                Notice::Event(event) => {
                    &&& final(state).ledger() == old(state).ledger()
                    &&& final(state).history_spec() == old(state).history_spec()
                    &&& (final(state).events_spec(), final(self).view().reason) == events_offer(
                        old(state).events_spec(),
                        old(self).view().reason,
                        event,
                    )
                    &&& final(self).view() == (CoordinatorView {
                        reason: final(self).view().reason,
                        ..old(self).view()
                    })
                },
            },
    {
        match notice {
            Notice::Complete { id, outcome } => state.complete(id, outcome),
            Notice::Event(event) => state.push_event(&mut self.reason, event),
        }
    }

    /// Ends the session. An accepted shutdown is answered with its outcome only
    /// when nothing else ended the session; the end reason, if any, is the last event.
    pub fn finish(&mut self, state: &mut SessionState, cancelled: bool)
        requires
            old(state).wf(),
        ensures
            final(state).wf(),
            final(self).view() == (CoordinatorView {
                reason: None,
                shutdown: if old(self).view().stopping {
                    None
                } else {
                    old(self).view().shutdown
                },
                ..old(self).view()
            }),
            ({
                let c0 = old(self).view();
                if c0.stopping {
                    exists|outcome: Outcome|
                        {
                            &&& if c0.reason is Some || cancelled || c0.shutdown is None {
                                outcome is Err && outcome->Err_0@ == ErrorView::Ended
                            } else {
                                outcome == c0.shutdown->0
                            }
                            &&& final(state).ledger() == (Ledger {
                                ended: true,
                                ..ledger_complete(old(state).ledger(), SHUTDOWN_ID, outcome)
                            })
                            &&& history_completed(
                                old(state).history_spec(),
                                final(state).history_spec(),
                                SHUTDOWN_ID,
                                outcome,
                            )
                        }
                } else {
                    &&& final(state).ledger() == (Ledger { ended: true, ..old(state).ledger() })
                    &&& final(state).history_spec() == old(state).history_spec()
                }
            }),
            final(state).events_spec() == match old(self).view().reason {
                Some(r) => old(state).events_spec().push(Event::Ended { reason: r }),
                None => old(state).events_spec(),
            },
    {
        if self.stopping {
            let mut shutdown: Option<Outcome> = None;
            std::mem::swap(&mut shutdown, &mut self.shutdown);
            let result: Outcome = if self.reason.is_some() || cancelled {
                Err(Error::Ended)
            } else {
                match shutdown {
                    Some(outcome) => outcome,
                    None => Err(Error::Ended),
                }
            };
            state.complete(SHUTDOWN_ID, result);
        }
        let mut reason: Option<EndReason> = None;
        std::mem::swap(&mut reason, &mut self.reason);
        state.end(reason);
    }
}

fn invalid_response() -> (e: Error)
    ensures
        e@ == (ErrorView::Protocol {
            code: "invalid_response"@,
            message: "response does not match the accepted command"@,
        }),
{
    Error::Protocol {
        code: String::from_str("invalid_response"),
        message: String::from_str("response does not match the accepted command"),
    }
}

/// Normal request identifiers count up by one per accepted command and never
/// reach the identifier reserved for shutdown.
pub proof fn normal_ids_follow_one_another(
    c0: CoordinatorView,
    c1: CoordinatorView,
    c2: CoordinatorView,
    x: Command,
    y: Command,
    a1: Admission,
    a2: Admission,
)
    requires
        admission_effect(c0, c1, x, a1),
        admission_effect(c1, c2, y, a2),
        a1.reply is Ok,
        a2.reply is Ok,
        !(x is Shutdown),
        !(y is Shutdown),
    ensures
        a1.reply == Ok::<u64, Error>(c0.next),
        a2.reply == Ok::<u64, Error>((c0.next + 1) as u64),
        c0.next + 1 < SHUTDOWN_ID,
{
}

/// A refused operation consumes no identifier: the next accepted command gets
/// the identifier it would have got without the refusal.
pub proof fn refusals_consume_no_id(
    c0: CoordinatorView,
    c1: CoordinatorView,
    c2: CoordinatorView,
    x: Command,
    y: Command,
    a1: Admission,
    a2: Admission,
)
    requires
        admission_effect(c0, c1, x, a1),
        admission_effect(c1, c2, y, a2),
        a1.reply is Err,
        a2.reply is Ok,
        !(y is Shutdown),
    ensures
        c1 == c0,
        a2.reply == Ok::<u64, Error>(c0.next),
{
}

/// Shutdown waits for the session's work: with a command answered, held or
/// waiting on a recording file, it is refused as pending; with a recording
/// active, as recording; a refusal leaves the session as it was, so that later
/// commands and a later shutdown can still be accepted. Otherwise it is
/// accepted under the reserved identifier and the session stops.
pub proof fn shutdown_waits_for_work_and_recording(c0: CoordinatorView, c1: CoordinatorView, a: Admission)
    requires
        !c0.stopping,
        admission_effect(c0, c1, Command::Shutdown, a),
    ensures
        ({
            let pending = !c0.active.is_empty() || c0.deferred.len() > 0
                || c0.recorder.phase_spec() is Starting || c0.recorder.phase_spec() is Stopping;
            &&& pending ==> c1 == c0 && a.reply is Err && a.reply->Err_0@ == (
            ErrorView::ShutdownBlocked {
                code: "shutdown_commands_pending"@,
                message: "commands are still pending"@,
            })
            &&& (!pending && c0.recorder.phase_spec() is Active) ==> c1 == c0 && a.reply is Err
                && a.reply->Err_0@ == (ErrorView::ShutdownBlocked {
                code: "shutdown_recording_active"@,
                message: "stop recording before shutdown"@,
            })
            &&& (!pending && c0.recorder.phase_spec() is Idle) ==> a.reply == Ok::<u64, Error>(
                SHUTDOWN_ID,
            ) && c1.stopping && c1.next == c0.next
        }),
{
}

/// How the game's answer becomes the outcome of the command it answers: a
/// rejection that names the command keeps the game's diagnostic code and
/// message; a completion that names the command and has a fitting output
/// yields that output; a protocol error keeps its code and message.
pub proof fn answers_keep_the_game_diagnostic(
    command: Command,
    decoded: Message,
    output_valid: bool,
    outcome: Outcome,
)
    requires
        response_outcome(command, Some(decoded), output_valid, outcome),
    ensures
        match decoded {
            Message::Rejected { command: name, error, .. } => name@ == command_name(command)
                ==> outcome == Err::<String, Error>(
                Error::Rejected { code: error.code, message: error.message },
            ),
            Message::Completed { command: name, output, .. } => name@ == command_name(command)
                && output_valid ==> outcome == Ok::<String, Error>(output),
            Message::ProtocolError { error, .. } => outcome == Err::<String, Error>(
                Error::Protocol { code: error.code, message: error.message },
            ),
            Message::Ready { .. } => outcome is Err && outcome->Err_0@ == (ErrorView::Protocol {
                code: "invalid_response"@,
                message: "response does not match the accepted command"@,
            }),
        },
{
}

} // verus!
