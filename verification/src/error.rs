//! What can go wrong between the application and the sensor.

use vstd::prelude::*;

verus! {

/// The kinds of failure that are told apart.
#[derive(Clone, Copy, Debug, PartialEq, Eq, Structural)]
pub enum ErrorKind {
    /// The named serial device is missing, busy or may not be opened.
    TransportUnavailable,
    /// One register operation did not finish within its deadline.
    ProtocolTimeout,
    /// The device answered with an error or with a malformed response.
    ProtocolError,
    /// The other end of a command or event channel is gone.
    ChannelClosed,
}

/// A failure: its kind, and a text for the user.
#[derive(Debug, PartialEq, Eq)]
pub struct CommError {
    pub kind: ErrorKind,
    pub detail: String,
}

/// The mathematical value of a `CommError`.
pub struct Failure {
    pub kind: ErrorKind,
    pub detail: Seq<char>,
}

impl View for CommError {
    type V = Failure;

    open spec fn view(&self) -> Failure {
        Failure { kind: self.kind, detail: self.detail@ }
    }
}

/// The text that says that no serial port was chosen.
pub open spec fn no_port_text() -> Seq<char> {
    "No serial port found"@
}

/// The text that says that a register read ran out of time.
pub open spec fn timeout_text() -> Seq<char> {
    "Timeout beim lesen aller Register"@
}

/// The text that says that a read brought no register value.
pub open spec fn empty_response_text() -> Seq<char> {
    "Antwort ohne Registerwert"@
}

impl CommError {
    /// A failure of the given kind with the given text.
    pub fn new(kind: ErrorKind, detail: String) -> (error: CommError)
        ensures
            error@ == (Failure { kind, detail: detail@ }),
    {
        CommError { kind, detail }
    }

    /// The failure of a command that names no serial port.
    pub fn no_port() -> (error: CommError)
        ensures
            error@ == (Failure { kind: ErrorKind::TransportUnavailable, detail: no_port_text() }),
    {
        CommError {
            kind: ErrorKind::TransportUnavailable,
            detail: String::from_str("No serial port found"),
        }
    }

    /// The failure of a register operation that exceeded its deadline.
    pub fn timeout() -> (error: CommError)
        ensures
            error@ == (Failure { kind: ErrorKind::ProtocolTimeout, detail: timeout_text() }),
    {
        CommError {
            kind: ErrorKind::ProtocolTimeout,
            detail: String::from_str("Timeout beim lesen aller Register"),
        }
    }

    /// The failure of a read whose response holds no register value.
    pub fn empty_response() -> (error: CommError)
        ensures
            error@ == (Failure { kind: ErrorKind::ProtocolError, detail: empty_response_text() }),
    {
        CommError {
            kind: ErrorKind::ProtocolError,
            detail: String::from_str("Antwort ohne Registerwert"),
        }
    }

    /// A copy of this failure.
    pub fn duplicate(&self) -> (copy: CommError)
        ensures
            copy@ == self@,
    {
        CommError { kind: self.kind, detail: self.detail.clone() }
    }
}

} // verus!
