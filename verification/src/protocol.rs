//! Line-oriented game protocol: handshake capabilities, diagnostics and messages.
use vstd::prelude::*;
use crate::command::Command;
use crate::error::{Error, ErrorView, error_of};
use crate::json::{raw_request_id, raw_request_id_of};

verus! {

/// The protocol version that a game must announce in its Ready message.
pub const VERSION: u32 = 3;

/// Features that a game announces at the handshake.
#[derive(Debug, Clone, Copy, PartialEq, Eq, Structural)]
pub struct Capabilities {
    pub screenshot: bool,
}

impl Capabilities {
    /// Capabilities with every optional feature absent.
    pub fn none() -> (c: Capabilities)
        ensures
            !c.screenshot,
    {
        Capabilities { screenshot: false }
    }
}

/// A code and message pair, as the game reports a rejection or failure.
#[derive(Debug)]
pub struct Diagnostic {
    pub code: String,
    pub message: String,
}

impl Diagnostic {
    /// A diagnostic with the given code and message.
    pub fn new(code: &str, message: String) -> (d: Diagnostic)
        ensures
            d.code@ == code@,
            d.message == message,
    {
        Diagnostic { code: String::from_str(code), message }
    }

    /// A copy of this diagnostic.
    pub fn duplicate(&self) -> (r: Diagnostic)
        ensures
            r == *self,
    {
        Diagnostic { code: self.code.clone(), message: self.message.clone() }
    }
}

impl Error {
    /// The error that a diagnostic on the wire denotes.
    pub fn from_diagnostic(d: Diagnostic) -> (e: Error)
        ensures
            e@ == error_of(d.code@, d.message@),
    {
        Error::new(d.code.as_str(), d.message)
    }

    /// The diagnostic that carries this error on the wire.
    pub fn to_diagnostic(&self) -> (d: Diagnostic)
        ensures
            d.code@ == self@.code(),
            d.message@ == self@.message(),
    {
        Diagnostic { code: String::from_str(self.code()), message: String::from_str(self.message()) }
    }
}

/// A code whose error variant carries its own fixed code or message, so that the
/// diagnostic does not come back unchanged from an error.
pub open spec fn is_aliased_code(code: Seq<char>) -> bool {
    code == "unsupported_feature"@ || code == "request_id_exhausted"@ || code == "ended"@
}

/// An error whose code selects its own variant, so that it survives the wire.
pub open spec fn is_canonical(e: ErrorView) -> bool {
    match e {
        ErrorView::ShutdownBlocked { code, .. } => code == "shutdown_commands_pending"@ || code
            == "shutdown_recording_active"@,
        ErrorView::Protocol { code, .. } => code == "invalid_ready"@ || code
            == "unsupported_protocol_version"@ || code == "invalid_response"@,
        ErrorView::Rejected { code, .. } => !(code == "invalid_config"@ || code
            == "unsupported_feature"@ || code == "launch"@ || code == "io"@ || code
            == "invalid_pending"@ || code == "request_id_exhausted"@ || code == "ended"@ || code
            == "shutdown_commands_pending"@ || code == "shutdown_recording_active"@ || code
            == "invalid_ready"@ || code == "unsupported_protocol_version"@ || code
            == "invalid_response"@),
        _ => true,
    }
}

/// A diagnostic read into an error and written back keeps its code and message,
/// unless its code names a variant with a fixed code or message.
pub proof fn lemma_diagnostic_round_trip(code: Seq<char>, message: Seq<char>)
    requires
        !is_aliased_code(code),
    ensures
        error_of(code, message).code() == code,
        error_of(code, message).message() == message,
{
}

/// An error whose code selects its own variant is unchanged by a trip through
/// its diagnostic.
pub proof fn lemma_error_round_trip(e: ErrorView)
    requires
        is_canonical(e),
    ensures
        error_of(e.code(), e.message()) == e,
{
    reveal_strlit("invalid_config");
    reveal_strlit("unsupported_feature");
    reveal_strlit("launch");
    reveal_strlit("io");
    reveal_strlit("invalid_pending");
    reveal_strlit("request_id_exhausted");
    reveal_strlit("ended");
    reveal_strlit("shutdown_commands_pending");
    reveal_strlit("shutdown_recording_active");
    reveal_strlit("invalid_ready");
    reveal_strlit("unsupported_protocol_version");
    reveal_strlit("invalid_response");
    assert("invalid_config"@.len() == 14);
    assert("unsupported_feature"@.len() == 19);
    assert("launch"@.len() == 6);
    assert("io"@.len() == 2);
    assert("invalid_pending"@.len() == 15);
    assert("request_id_exhausted"@.len() == 20);
    assert("ended"@.len() == 5);
    assert("shutdown_commands_pending"@.len() == 25);
    assert("shutdown_recording_active"@.len() == 25);
    assert("invalid_ready"@.len() == 13);
    assert("unsupported_protocol_version"@.len() == 28);
    assert("invalid_response"@.len() == 16);
    match e {
        ErrorView::InvalidConfig { .. } => {},
        ErrorView::Launch { .. } => {},
        ErrorView::Io { .. } => {},
        ErrorView::InvalidPending { .. } => {},
        ErrorView::RequestIdExhausted => {},
        ErrorView::ShutdownBlocked { .. } => {},
        ErrorView::Rejected { .. } => {},
        ErrorView::Protocol { .. } => {},
        ErrorView::Ended => {},
    }
}

/// A message from the game to the session. Completed outputs are compact JSON text.
#[derive(Debug)]
#[allow(inconsistent_fields)]
pub enum Message {
    Ready { version: u32, capabilities: Capabilities },
    Completed { request_id: u64, command: String, output: String },
    Rejected { request_id: u64, command: String, error: Diagnostic },
    ProtocolError { request_id: Option<u64>, error: Diagnostic },
}

impl Message {
    /// The request that a message answers, where it names one.
    pub fn id(&self) -> (r: Option<u64>)
        ensures
            r == message_id(*self),
    {
        match self {
            Message::Completed { request_id, .. } => Some(*request_id),
            Message::Rejected { request_id, .. } => Some(*request_id),
            Message::ProtocolError { request_id, .. } => *request_id,
            Message::Ready { .. } => None,
        }
    }
}

/// The request that a message answers.
pub open spec fn message_id(m: Message) -> Option<u64> {
    match m {
        Message::Completed { request_id, .. } => Some(request_id),
        Message::Rejected { request_id, .. } => Some(request_id),
        Message::ProtocolError { request_id, .. } => request_id,
        Message::Ready { .. } => None,
    }
}

/// The protocol error that answers a request line whose envelope does not
/// parse: it names the line's `request_id` member where the line has one.
pub fn malformed_request(line: &str, message: String) -> (m: Message)
    ensures
        m is ProtocolError,
        m->ProtocolError_request_id == raw_request_id_of(line@),
        m->ProtocolError_error.code@ == "malformed_request"@,
        m->ProtocolError_error.message == message,
{
    Message::ProtocolError {
        request_id: raw_request_id(line),
        error: Diagnostic::new("malformed_request", message),
    }
}

/// The rejection of a request whose arguments do not fit its command.
pub fn invalid_arguments(request_id: u64, command: String, message: String) -> (m: Message)
    ensures
        m is Rejected,
        m->Rejected_request_id == request_id,
        m->Rejected_command == command,
        m->Rejected_error.code@ == "invalid_arguments"@,
        m->Rejected_error.message == message,
{
    Message::Rejected { request_id, command, error: Diagnostic::new("invalid_arguments", message) }
}

/// Decides a request line: an envelope that does not parse is a malformed
/// request, arguments that do not fit the named command are rejected, and
/// otherwise the request is its identifier and command. `envelope` is the
/// line's identifier and command name, or the parse error; `command` is the
/// command that the name and arguments denote, or the error.
pub fn decode(
    line: &str,
    envelope: Result<(u64, String), String>,
    command: Result<Command, String>,
) -> (r: Result<(u64, Command), Message>)
    ensures
        match envelope {
            Err(e) => {
                &&& r is Err
                &&& r->Err_0 is ProtocolError
                &&& r->Err_0->ProtocolError_request_id == raw_request_id_of(line@)
                &&& r->Err_0->ProtocolError_error.code@ == "malformed_request"@
                &&& r->Err_0->ProtocolError_error.message == e
            },
            Ok((id, name)) => match command {
                Err(e) => {
                    &&& r is Err
                    &&& r->Err_0 is Rejected
                    &&& r->Err_0->Rejected_request_id == id
                    &&& r->Err_0->Rejected_command == name
                    &&& r->Err_0->Rejected_error.code@ == "invalid_arguments"@
                    &&& r->Err_0->Rejected_error.message == e
                },
                Ok(c) => r == Ok::<(u64, Command), Message>((id, c)),
            },
        },
{
    match envelope {
        Err(e) => Err(malformed_request(line, e)),
        Ok((id, name)) => match command {
            Err(e) => Err(invalid_arguments(id, name, e)),
            Ok(c) => Ok((id, c)),
        },
    }
}

} // verus!
