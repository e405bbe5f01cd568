//! Error types of the engine.
use vstd::prelude::*;
use vstd::string::StringExecFns;

verus! {

/// Result type for terminal operations.
pub type Result<T> = std::result::Result<T, Error>;

/// Errors that can occur in the engine.
#[derive(Debug)]
pub enum Error {
    /// No live session goes by this identifier.
    SessionNotFound(String),
    /// A live session already goes by this identifier.
    SessionAlreadyExists(String),
    /// The pseudo-terminal could not be spawned, written to or resized.
    PtyError(String),
    /// A failure of the emulator.
    TerminalError(String),
    /// A request names something the engine does not have or cannot make.
    InvalidConfig(String),
    /// A failure of input or output.
    IoError(String),
    /// The session was destroyed.
    SessionClosed,
    /// A lock was poisoned.
    LockPoisoned,
}

/// An error as a value.
pub enum ErrorView {
    SessionNotFound(Seq<char>),
    SessionAlreadyExists(Seq<char>),
    PtyError(Seq<char>),
    TerminalError(Seq<char>),
    InvalidConfig(Seq<char>),
    IoError(Seq<char>),
    SessionClosed,
    LockPoisoned,
}

impl ErrorView {
    /// The text that describes the error.
    pub open spec fn message(self) -> Seq<char> {
        match self {
            ErrorView::SessionNotFound(id) => "Session not found: "@ + id,
            ErrorView::SessionAlreadyExists(id) => "Session already exists: "@ + id,
            ErrorView::PtyError(detail) => "PTY error: "@ + detail,
            ErrorView::TerminalError(detail) => "Terminal error: "@ + detail,
            ErrorView::InvalidConfig(detail) => "Invalid configuration: "@ + detail,
            ErrorView::IoError(detail) => "IO error: "@ + detail,
            ErrorView::SessionClosed => "Session is closed"@,
            ErrorView::LockPoisoned => "Lock poisoned"@,
        }
    }
}

impl View for Error {
    type V = ErrorView;

    open spec fn view(&self) -> ErrorView {
        match self {
            Error::SessionNotFound(id) => ErrorView::SessionNotFound(id@),
            Error::SessionAlreadyExists(id) => ErrorView::SessionAlreadyExists(id@),
            Error::PtyError(detail) => ErrorView::PtyError(detail@),
            Error::TerminalError(detail) => ErrorView::TerminalError(detail@),
            Error::InvalidConfig(detail) => ErrorView::InvalidConfig(detail@),
            Error::IoError(detail) => ErrorView::IoError(detail@),
            Error::SessionClosed => ErrorView::SessionClosed,
            Error::LockPoisoned => ErrorView::LockPoisoned,
        }
    }
}

impl DeepView for Error {
    type V = ErrorView;

    open spec fn deep_view(&self) -> ErrorView {
        self@
    }
}

impl Clone for Error {
    fn clone(&self) -> (e: Self)
        ensures
            e@ == self@,
    {
        match self {
            Error::SessionNotFound(id) => Error::SessionNotFound(id.clone()),
            Error::SessionAlreadyExists(id) => Error::SessionAlreadyExists(id.clone()),
            Error::PtyError(detail) => Error::PtyError(detail.clone()),
            Error::TerminalError(detail) => Error::TerminalError(detail.clone()),
            Error::InvalidConfig(detail) => Error::InvalidConfig(detail.clone()),
            Error::IoError(detail) => Error::IoError(detail.clone()),
            Error::SessionClosed => Error::SessionClosed,
            Error::LockPoisoned => Error::LockPoisoned,
        }
    }
}

impl Error {
    /// The text that describes the error.
    pub fn message(&self) -> (text: String)
        ensures
            text@ == self@.message(),
    {
        match self {
            Error::SessionNotFound(id) => String::from_str("Session not found: ").concat(id.as_str()),
            Error::SessionAlreadyExists(id) => String::from_str("Session already exists: ").concat(
                id.as_str(),
            ),
            Error::PtyError(detail) => String::from_str("PTY error: ").concat(detail.as_str()),
            Error::TerminalError(detail) => String::from_str("Terminal error: ").concat(
                detail.as_str(),
            ),
            Error::InvalidConfig(detail) => String::from_str("Invalid configuration: ").concat(
                detail.as_str(),
            ),
            Error::IoError(detail) => String::from_str("IO error: ").concat(detail.as_str()),
            Error::SessionClosed => String::from_str("Session is closed"),
            Error::LockPoisoned => String::from_str("Lock poisoned"),
        }
    }
}

} // verus!
