//! What is needed to open a session: the serial line's settings and the
//! device's address on the bus.

use vstd::prelude::*;
use vstd::string::*;

use crate::error::{no_port_text, CommError, ErrorKind, Failure};

verus! {

/// The baud rate of the sensor's serial line.
pub const BAUD_RATE: u32 = 9600;

/// The settings of a serial line.
#[derive(Debug, PartialEq, Eq)]
pub struct SerialConfig {
    pub path: String,
    pub baud_rate: u32,
}

/// The mathematical value of a `SerialConfig`.
pub struct Line {
    pub path: Seq<char>,
    pub baud_rate: u32,
}

impl View for SerialConfig {
    type V = Line;

    open spec fn view(&self) -> Line {
        Line { path: self.path@, baud_rate: self.baud_rate }
    }
}

/// The path of the serial line that is used when none is chosen.
pub open spec fn default_path() -> Seq<char> {
    "/dev/ttyUSB0"@
}

impl SerialConfig {
    /// The default line: the first USB adapter, at the sensor's baud rate.
    pub fn new() -> (config: SerialConfig)
        ensures
            config@ == (Line { path: default_path(), baud_rate: BAUD_RATE }),
    {
        SerialConfig { path: String::from_str("/dev/ttyUSB0"), baud_rate: BAUD_RATE }
    }

    /// The line at `path`, at the sensor's baud rate.
    pub fn at(path: String) -> (config: SerialConfig)
        ensures
            config@ == (Line { path: path@, baud_rate: BAUD_RATE }),
    {
        SerialConfig { path, baud_rate: BAUD_RATE }
    }
}

/// A request to open a session: one line, one device address. Every connect
/// and every device action makes its own; none is kept or shared.
#[derive(Debug, PartialEq, Eq)]
pub struct SessionRequest {
    pub line: SerialConfig,
    pub slave: u8,
}

/// The mathematical value of a `SessionRequest`.
pub struct Session {
    pub line: Line,
    pub slave: u8,
}

impl View for SessionRequest {
    type V = Session;

    open spec fn view(&self) -> Session {
        Session { line: self.line@, slave: self.slave }
    }
}

/// The session that a command with the given port and address asks for, or
/// the failure where it names no port.
pub open spec fn session_for(port: Option<Seq<char>>, address: u8) -> Result<Session, Failure> {
    match port {
        Some(path) => Ok(Session { line: Line { path, baud_rate: BAUD_RATE }, slave: address }),
        None => Err(Failure { kind: ErrorKind::TransportUnavailable, detail: no_port_text() }),
    }
}

/// Builds the request for a session on `port` with the device at `address`.
/// Without a port the transport is unavailable.
pub fn session_request(port: Option<String>, address: u8) -> (request: Result<
    SessionRequest,
    CommError,
>)
    ensures
        match session_for(port.deep_view(), address) {
            Ok(session) => request is Ok && request->Ok_0@ == session,
            Err(failure) => request is Err && request->Err_0@ == failure,
        },
{
    match port {
        Some(path) => Ok(SessionRequest { line: SerialConfig::at(path), slave: address }),
        None => Err(CommError::no_port()),
    }
}

} // verus!
