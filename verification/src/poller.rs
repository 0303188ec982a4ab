//! The register poller: it reads one frame of registers after another, one
//! register per request, until the connection is taken down or a read fails.
//!
//! The poller decides; its driver does the reading. Pacing is zero-delay: after
//! a frame is published the next cycle begins at once.

use vstd::prelude::*;

use crate::command::{Command, TokioCommand};
use crate::connection::TokioState;
use crate::error::{empty_response_text, CommError, ErrorKind, Failure};
use crate::event::{Event, UiCommand};
use crate::text::{read_error_message, read_error_text};

verus! {

/// The number of registers in a frame.
pub const REGISTER_COUNT: u16 = 50;

/// The time that one register read may take, in milliseconds.
pub const READ_TIMEOUT_MS: u64 = 3000;

/// Where the poller stands.
#[derive(Clone, Copy, Debug, PartialEq, Eq, Structural)]
pub enum Phase {
    /// Between two cycles. Only here the poller looks at the connection state.
    Idle,
    /// A read is under way.
    Reading,
    /// Stopped for good.
    Stopped,
}

/// The mathematical value of a poller.
pub struct PollerModel {
    pub phase: Phase,
    /// The number of registers in a frame.
    pub length: nat,
    /// The offset of the register that is being read.
    pub offset: nat,
    /// The values read so far in this cycle, by offset; zero where none was read yet.
    pub frame: Seq<u16>,
}

/// What the driver is to do next.
#[derive(Debug, PartialEq, Eq)]
pub enum PollerRequest {
    /// Read `count` registers at `offset`, within `timeout_ms`, and hand the outcome back.
    Read { offset: u16, count: u16, timeout_ms: u64 },
    /// The frame is complete: emit the event, then begin the next cycle.
    Publish(UiCommand),
    /// A read failed: emit the event, send the command to the dispatcher, and end.
    Fail { event: UiCommand, command: TokioCommand },
    /// The connection is down: end.
    Stop,
}

/// The mathematical value of a `PollerRequest`.
pub enum PollerAction {
    Read { offset: nat, count: nat, timeout_ms: nat },
    Publish(Event),
    Fail { event: Event, command: Command },
    Stop,
}

impl View for PollerRequest {
    type V = PollerAction;

    open spec fn view(&self) -> PollerAction {
        match self {
            PollerRequest::Read { offset, count, timeout_ms } => PollerAction::Read {
                offset: *offset as nat,
                count: *count as nat,
                timeout_ms: *timeout_ms as nat,
            },
            PollerRequest::Publish(event) => PollerAction::Publish(event@),
            PollerRequest::Fail { event, command } => PollerAction::Fail {
                event: event@,
                command: command@,
            },
            PollerRequest::Stop => PollerAction::Stop,
        }
    }
}

/// The mathematical value of what a read brought.
pub open spec fn read_view(outcome: Result<Vec<u16>, CommError>) -> Result<Seq<u16>, Failure> {
    match outcome {
        Ok(values) => Ok(values@),
        Err(error) => Err(error@),
    }
}

/// The request to read the one register at `offset`.
pub open spec fn read_at(offset: nat) -> PollerAction {
    PollerAction::Read { offset, count: 1, timeout_ms: READ_TIMEOUT_MS as nat }
}

/// The failure that a read's outcome amounts to, if any: the one that was
/// handed in, or a protocol error where the response holds no value.
pub open spec fn read_failure(outcome: Result<Seq<u16>, Failure>) -> Option<Failure> {
    match outcome {
        Ok(values) => if values.len() == 0 {
            Some(Failure { kind: ErrorKind::ProtocolError, detail: empty_response_text() })
        } else {
            None
        },
        Err(failure) => Some(failure),
    }
}

/// What is done with a failed read at `offset`: one error event that names
/// the offset and the cause, and the command that takes the connection down.
pub open spec fn fail_at(offset: nat, failure: Failure) -> PollerAction {
    PollerAction::Fail {
        event: Event::Error(read_error_text(offset, failure.detail)),
        command: Command::Disconnect,
    }
}

impl PollerModel {
    /// A poller for frames of `length` registers, before its first cycle.
    pub open spec fn fresh(length: nat) -> PollerModel {
        PollerModel { phase: Phase::Idle, length, offset: 0, frame: Seq::empty() }
    }

    /// The step at the boundary between two cycles. A stopped poller stays
    /// stopped. Otherwise the connection state decides: when it is down the
    /// poller stops; when it is up a new cycle begins with a frame of zeros
    /// and the read at offset 0 (a frame without registers is complete at once).
    pub open spec fn begin(self, state: TokioState) -> (PollerModel, PollerAction) {
        if self.phase == Phase::Stopped || state == TokioState::Disconnected {
            (PollerModel { phase: Phase::Stopped, ..self }, PollerAction::Stop)
        } else if self.length == 0 {
            (
                PollerModel { phase: Phase::Idle, offset: 0, frame: Seq::empty(), ..self },
                PollerAction::Publish(Event::RegistersUpdated(Seq::empty())),
            )
        } else {
            (
                PollerModel {
                    phase: Phase::Reading,
                    offset: 0,
                    frame: Seq::new(self.length, |i: int| 0u16),
                    ..self
                },
                read_at(0),
            )
        }
    }

    /// The step after a read. Where no read was under way the poller stops.
    /// A failed read stops it too, with the error event and the disconnect
    /// command. A value goes into the frame at the offset that was read; then
    /// the next offset is read, or the complete frame is published.
    pub open spec fn read_done(self, outcome: Result<Seq<u16>, Failure>) -> (
        PollerModel,
        PollerAction,
    ) {
        if self.phase != Phase::Reading {
            (PollerModel { phase: Phase::Stopped, ..self }, PollerAction::Stop)
        } else {
            match read_failure(outcome) {
                Some(failure) => (
                    PollerModel { phase: Phase::Stopped, ..self },
                    fail_at(self.offset, failure),
                ),
                None => {
                    let frame = self.frame.update(self.offset as int, outcome->Ok_0[0]);
                    if self.offset + 1 == self.length {
                        (
                            PollerModel { phase: Phase::Idle, offset: 0, frame: Seq::empty(), ..self },
                            PollerAction::Publish(Event::RegistersUpdated(frame)),
                        )
                    } else {
                        (
                            PollerModel { offset: self.offset + 1, frame, ..self },
                            read_at(self.offset + 1),
                        )
                    }
                },
            }
        }
    }
}

/// The register poller.
#[derive(Debug)]
pub struct RegisterPoller {
    phase: Phase,
    length: u16,
    offset: u16,
    frame: Vec<u16>,
}

impl View for RegisterPoller {
    type V = PollerModel;

    closed spec fn view(&self) -> PollerModel {
        PollerModel {
            phase: self.phase,
            length: self.length as nat,
            offset: self.offset as nat,
            frame: self.frame@,
        }
    }
}

impl RegisterPoller {
    #[verifier::type_invariant]
    spec fn well_formed(self) -> bool {
        self.phase == Phase::Reading ==> self.offset < self.length && self.frame@.len()
            == self.length
    }

    /// A poller for frames of `length` registers.
    pub fn new(length: u16) -> (poller: RegisterPoller)
        ensures
            poller@ == PollerModel::fresh(length as nat),
    {
        RegisterPoller { phase: Phase::Idle, length, offset: 0, frame: Vec::new() }
    }

    /// Where the poller stands.
    pub fn phase(&self) -> (phase: Phase)
        ensures
            phase == self@.phase,
    {
        self.phase
    }

    /// Begins a cycle, or stops: see `PollerModel::begin`. The driver calls
    /// this at the start and after each published frame, with the connection
    /// state as it is then.
    pub fn begin_cycle(&mut self, state: &TokioState) -> (request: PollerRequest)
        ensures
            final(self)@ == old(self)@.begin(*state).0,
            request@ == old(self)@.begin(*state).1,
    {
        let length = self.length;
        if self.phase == Phase::Stopped || !state.is_connected() {
            self.phase = Phase::Stopped;
            PollerRequest::Stop
        } else if length == 0 {
            *self = RegisterPoller { phase: Phase::Idle, length, offset: 0, frame: Vec::new() };
            PollerRequest::Publish(UiCommand::UpdateSensorValues(Vec::new()))
        } else {
            let frame = zeros(length);
            *self = RegisterPoller { phase: Phase::Reading, length, offset: 0, frame };
            PollerRequest::Read { offset: 0, count: 1, timeout_ms: READ_TIMEOUT_MS }
        }
    }

    /// Takes the outcome of the read that was asked for: see
    /// `PollerModel::read_done`. A read that ran out of time is handed in as
    /// the failure `CommError::timeout()`.
    pub fn on_read(&mut self, outcome: Result<Vec<u16>, CommError>) -> (request: PollerRequest)
        ensures
            final(self)@ == old(self)@.read_done(read_view(outcome)).0,
            request@ == old(self)@.read_done(read_view(outcome)).1,
    {
        proof {
            use_type_invariant(&*self);
        }
        if self.phase != Phase::Reading {
            self.phase = Phase::Stopped;
            return PollerRequest::Stop;
        }
        let offset = self.offset;
        let failure = match outcome {
            Ok(values) => {
                if values.len() == 0 {
                    CommError::empty_response()
                } else {
                    let value = values[0];
                    let length = self.length;
                    self.phase = Phase::Idle;
                    let mut frame = Vec::new();
                    core::mem::swap(&mut frame, &mut self.frame);
                    frame.set(offset as usize, value);
                    if offset + 1 == length {
                        *self = RegisterPoller {
                            phase: Phase::Idle,
                            length,
                            offset: 0,
                            frame: Vec::new(),
                        };
                        return PollerRequest::Publish(UiCommand::UpdateSensorValues(frame));
                    } else {
                        *self = RegisterPoller {
                            phase: Phase::Reading,
                            length,
                            offset: offset + 1,
                            frame,
                        };
                        return PollerRequest::Read {
                            offset: offset + 1,
                            count: 1,
                            timeout_ms: READ_TIMEOUT_MS,
                        };
                    }
                }
            },
            Err(error) => error,
        };
        self.phase = Phase::Stopped;
        PollerRequest::Fail {
            event: UiCommand::Error(read_error_message(offset, failure.detail.as_str())),
            command: TokioCommand::Disconnect,
        }
    }
}

/// A frame of `length` zeros.
fn zeros(length: u16) -> (frame: Vec<u16>)
    ensures
        frame@ == Seq::new(length as nat, |i: int| 0u16),
{
    let mut frame: Vec<u16> = Vec::new();
    let mut i: u16 = 0;
    while i < length
        invariant
            i <= length,
            frame@ == Seq::new(i as nat, |k: int| 0u16),
        decreases length - i,
    {
        frame.push(0);
        i = i + 1;
        assert(frame@ =~= Seq::new(i as nat, |k: int| 0u16));
    }
    frame
}

} // verus!
