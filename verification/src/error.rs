//! Session errors and their stable wire codes.
use vstd::prelude::*;
use crate::text::{str_eq, owned};

verus! {

/// A session error. Every variant has a stable machine-readable code.
#[derive(Debug)]
pub enum Error {
    InvalidConfig { message: String },
    Launch { message: String },
    Io { message: String },
    InvalidPending { message: String },
    RequestIdExhausted,
    ShutdownBlocked { code: String, message: String },
    Rejected { code: String, message: String },
    Protocol { code: String, message: String },
    Ended,
}

/// The mathematical value of an [`Error`].
pub enum ErrorView {
    InvalidConfig { message: Seq<char> },
    Launch { message: Seq<char> },
    Io { message: Seq<char> },
    InvalidPending { message: Seq<char> },
    RequestIdExhausted,
    ShutdownBlocked { code: Seq<char>, message: Seq<char> },
    Rejected { code: Seq<char>, message: Seq<char> },
    Protocol { code: Seq<char>, message: Seq<char> },
    Ended,
}

impl View for Error {
    type V = ErrorView;

    open spec fn view(&self) -> ErrorView {
        match self {
            Error::InvalidConfig { message } => ErrorView::InvalidConfig { message: message@ },
            Error::Launch { message } => ErrorView::Launch { message: message@ },
            Error::Io { message } => ErrorView::Io { message: message@ },
            Error::InvalidPending { message } => ErrorView::InvalidPending { message: message@ },
            Error::RequestIdExhausted => ErrorView::RequestIdExhausted,
            Error::ShutdownBlocked { code, message } => ErrorView::ShutdownBlocked {
                code: code@,
                message: message@,
            },
            Error::Rejected { code, message } => ErrorView::Rejected {
                code: code@,
                message: message@,
            },
            Error::Protocol { code, message } => ErrorView::Protocol {
                code: code@,
                message: message@,
            },
            Error::Ended => ErrorView::Ended,
        }
    }
}

/// The error that a code and a message denote: the codes of the fixed variants
/// select them, a few codes group into shutdown or protocol failures, and every
/// other code is a business rejection.
pub open spec fn error_of(code: Seq<char>, message: Seq<char>) -> ErrorView {
    if code == "invalid_config"@ || code == "unsupported_feature"@ {
        ErrorView::InvalidConfig { message }
    } else if code == "launch"@ {
        ErrorView::Launch { message }
    } else if code == "io"@ {
        ErrorView::Io { message }
    } else if code == "invalid_pending"@ {
        ErrorView::InvalidPending { message }
    } else if code == "request_id_exhausted"@ {
        ErrorView::RequestIdExhausted
    } else if code == "ended"@ {
        ErrorView::Ended
    } else if code == "shutdown_commands_pending"@ || code == "shutdown_recording_active"@ {
        ErrorView::ShutdownBlocked { code, message }
    } else if code == "invalid_ready"@ || code == "unsupported_protocol_version"@ || code
        == "invalid_response"@ {
        ErrorView::Protocol { code, message }
    } else {
        ErrorView::Rejected { code, message }
    }
}

impl ErrorView {
    /// The stable code of an error.
    pub open spec fn code(self) -> Seq<char> {
        match self {
            ErrorView::InvalidConfig { .. } => "invalid_config"@,
            ErrorView::Launch { .. } => "launch"@,
            ErrorView::Io { .. } => "io"@,
            ErrorView::InvalidPending { .. } => "invalid_pending"@,
            ErrorView::RequestIdExhausted => "request_id_exhausted"@,
            ErrorView::ShutdownBlocked { code, .. } => code,
            ErrorView::Rejected { code, .. } => code,
            ErrorView::Protocol { code, .. } => code,
            ErrorView::Ended => "ended"@,
        }
    }

    /// The human-readable message of an error.
    pub open spec fn message(self) -> Seq<char> {
        match self {
            ErrorView::InvalidConfig { message } => message,
            ErrorView::Launch { message } => message,
            ErrorView::Io { message } => message,
            ErrorView::InvalidPending { message } => message,
            ErrorView::RequestIdExhausted => "normal request IDs exhausted"@,
            ErrorView::ShutdownBlocked { message, .. } => message,
            ErrorView::Rejected { message, .. } => message,
            ErrorView::Protocol { message, .. } => message,
            ErrorView::Ended => "session has ended"@,
        }
    }
}

impl Error {
    /// Builds the error that `code` denotes, carrying `message` where the variant has one.
    pub fn new(code: &str, message: String) -> (e: Error)
        ensures
            e@ == error_of(code@, message@),
    {
        if str_eq(code, "invalid_config") || str_eq(code, "unsupported_feature") {
            Error::InvalidConfig { message }
        } else if str_eq(code, "launch") {
            Error::Launch { message }
        } else if str_eq(code, "io") {
            Error::Io { message }
        } else if str_eq(code, "invalid_pending") {
            Error::InvalidPending { message }
        } else if str_eq(code, "request_id_exhausted") {
            Error::RequestIdExhausted
        } else if str_eq(code, "ended") {
            Error::Ended
        } else if str_eq(code, "shutdown_commands_pending") || str_eq(
            code,
            "shutdown_recording_active",
        ) {
            Error::ShutdownBlocked { code: owned(code), message }
        } else if str_eq(code, "invalid_ready") || str_eq(code, "unsupported_protocol_version")
            || str_eq(code, "invalid_response") {
            Error::Protocol { code: owned(code), message }
        } else {
            Error::Rejected { code: owned(code), message }
        }
    }

    /// An input or output failure with the given message.
    pub fn io(message: String) -> (e: Error)
        ensures
            e@ == (ErrorView::Io { message: message@ }),
    {
        Error::Io { message }
    }

    /// The error of an operation on a session that has ended.
    pub fn ended() -> (e: Error)
        ensures
            e@ == ErrorView::Ended,
    {
        Error::Ended
    }

    /// The stable code of this error.
    pub fn code(&self) -> (r: &str)
        ensures
            r@ == self@.code(),
    {
        match self {
            Error::InvalidConfig { .. } => "invalid_config",
            Error::Launch { .. } => "launch",
            Error::Io { .. } => "io",
            Error::InvalidPending { .. } => "invalid_pending",
            Error::RequestIdExhausted => "request_id_exhausted",
            Error::ShutdownBlocked { code, .. } => code.as_str(),
            Error::Rejected { code, .. } => code.as_str(),
            Error::Protocol { code, .. } => code.as_str(),
            Error::Ended => "ended",
        }
    }

    /// The human-readable message of this error.
    pub fn message(&self) -> (r: &str)
        ensures
            r@ == self@.message(),
    {
        match self {
            Error::InvalidConfig { message } => message.as_str(),
            Error::Launch { message } => message.as_str(),
            Error::Io { message } => message.as_str(),
            Error::InvalidPending { message } => message.as_str(),
            Error::RequestIdExhausted => "normal request IDs exhausted",
            Error::ShutdownBlocked { message, .. } => message.as_str(),
            Error::Rejected { message, .. } => message.as_str(),
            Error::Protocol { message, .. } => message.as_str(),
            Error::Ended => "session has ended",
        }
    }

    /// A copy of this error.
    pub fn duplicate(&self) -> (r: Error)
        ensures
            r == *self,
            r@ == self@,
    {
        match self {
            Error::InvalidConfig { message } => Error::InvalidConfig { message: message.clone() },
            Error::Launch { message } => Error::Launch { message: message.clone() },
            Error::Io { message } => Error::Io { message: message.clone() },
            Error::InvalidPending { message } => Error::InvalidPending { message: message.clone() },
            Error::RequestIdExhausted => Error::RequestIdExhausted,
            Error::ShutdownBlocked { code, message } => Error::ShutdownBlocked {
                code: code.clone(),
                message: message.clone(),
            },
            Error::Rejected { code, message } => Error::Rejected {
                code: code.clone(),
                message: message.clone(),
            },
            Error::Protocol { code, message } => Error::Protocol {
                code: code.clone(),
                message: message.clone(),
            },
            Error::Ended => Error::Ended,
        }
    }
}

} // verus!
