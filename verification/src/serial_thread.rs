//! The manager of a plain serial port: it opens and closes the port on
//! command, scans for ports now and then, and notices when the open port has
//! gone.
//!
//! The manager decides; its driver opens the port, enumerates, and delivers
//! each reply, calling the listener's callback after every one.

use vstd::prelude::*;
use vstd::relations::*;
use vstd::seq_lib::*;

use crate::error::{CommError, Failure};
use crate::ports::{lemma_port_order_total, port_le, port_name_le, port_order, sort_ports};

verus! {

/// The time between two scans for ports, in milliseconds.
pub const PORT_SCAN_TIME_MS: u64 = 5000;

/// The time that the driver sleeps between two rounds, in milliseconds.
pub const LOOP_TIME_MS: u64 = 10;

/// The baud rate before any was asked for.
pub const DEFAULT_BAUD_RATE: u32 = 9600;

/// A command for the manager.
#[derive(Debug, PartialEq, Eq)]
pub enum SerialCommand {
    ChangePort(String),
    ConnectToPort { name: String, baud: u32 },
    Disconnect,
}

/// The mathematical value of a `SerialCommand`.
pub enum PortOrder {
    ChangePort(Seq<char>),
    ConnectToPort { name: Seq<char>, baud: u32 },
    Disconnect,
}

impl View for SerialCommand {
    type V = PortOrder;

    open spec fn view(&self) -> PortOrder {
        match self {
            SerialCommand::ChangePort(name) => PortOrder::ChangePort(name@),
            SerialCommand::ConnectToPort { name, baud } => PortOrder::ConnectToPort {
                name: name@,
                baud: *baud,
            },
            SerialCommand::Disconnect => PortOrder::Disconnect,
        }
    }
}

/// A reply of the manager.
#[derive(Debug, PartialEq, Eq)]
pub enum SerialResponse {
    /// Bytes that the port received.
    Data(Vec<u8>),
    DisconnectSuccess,
    OpenPortSuccess(String),
    OpenPortError(CommError),
    /// The open port is no longer among the ports; these are the ports that are left, sorted.
    UnexpectedDisconnection(Vec<String>),
    /// The ports that a scan found, sorted. The open port, if there is one, is among them.
    PortsFound(Vec<String>),
}

/// The mathematical value of a `SerialResponse`.
pub enum PortReport {
    Data(Seq<u8>),
    DisconnectSuccess,
    OpenPortSuccess(Seq<char>),
    OpenPortError(Failure),
    UnexpectedDisconnection(Seq<Seq<char>>),
    PortsFound(Seq<Seq<char>>),
}

impl View for SerialResponse {
    type V = PortReport;

    open spec fn view(&self) -> PortReport {
        match self {
            SerialResponse::Data(bytes) => PortReport::Data(bytes@),
            SerialResponse::DisconnectSuccess => PortReport::DisconnectSuccess,
            SerialResponse::OpenPortSuccess(name) => PortReport::OpenPortSuccess(name@),
            SerialResponse::OpenPortError(error) => PortReport::OpenPortError(error@),
            SerialResponse::UnexpectedDisconnection(ports) => PortReport::UnexpectedDisconnection(
                ports.deep_view(),
            ),
            SerialResponse::PortsFound(ports) => PortReport::PortsFound(ports.deep_view()),
        }
    }
}

/// What the driver is to do for a command.
#[derive(Debug, PartialEq, Eq)]
pub enum SerialStep {
    /// Open the port `name` at `baud`, and tell `on_opened` how that went.
    Open { name: String, baud: u32 },
    /// Deliver this reply.
    Reply(SerialResponse),
    /// Nothing.
    Nothing,
}

/// The mathematical value of a `SerialStep`.
pub enum SerialAction {
    Open { name: Seq<char>, baud: u32 },
    Reply(PortReport),
    Nothing,
}

impl View for SerialStep {
    type V = SerialAction;

    open spec fn view(&self) -> SerialAction {
        match self {
            SerialStep::Open { name, baud } => SerialAction::Open { name: name@, baud: *baud },
            SerialStep::Reply(reply) => SerialAction::Reply(reply@),
            SerialStep::Nothing => SerialAction::Nothing,
        }
    }
}

/// The mathematical value of the manager: the name of the open port, if one
/// is open, and the baud rate that was asked for last.
pub struct SerialState {
    pub port: Option<Seq<char>>,
    pub baud_rate: u32,
}

impl SerialState {
    /// The step for a command. To connect is to remember the baud rate and
    /// to have the port opened. To disconnect is to forget the open port. A
    /// change of port does nothing.
    pub open spec fn commanded(self, order: PortOrder) -> (SerialState, SerialAction) {
        match order {
            PortOrder::ConnectToPort { name, baud } => (
                SerialState { baud_rate: baud, ..self },
                SerialAction::Open { name, baud },
            ),
            PortOrder::ChangePort(_) => (self, SerialAction::Nothing),
            PortOrder::Disconnect => (
                SerialState { port: None, ..self },
                SerialAction::Reply(PortReport::DisconnectSuccess),
            ),
        }
    }

    /// The step after the driver tried to open `name`. A port that was
    /// opened is the open port from now on; after a failure the manager is
    /// as it was.
    pub open spec fn opened(self, name: Seq<char>, outcome: Result<(), Failure>) -> (
        SerialState,
        PortReport,
    ) {
        match outcome {
            Ok(_) => (SerialState { port: Some(name), ..self }, PortReport::OpenPortSuccess(name)),
            Err(failure) => (self, PortReport::OpenPortError(failure)),
        }
    }

    /// The step after a scan that found `found`. The ports are reported
    /// sorted. Where a port is open and the scan did not find it, the port
    /// is given up and its loss is reported.
    pub open spec fn scanned(self, found: Seq<Seq<char>>) -> (SerialState, PortReport) {
        let ports = found.sort_by(port_order());
        if self.port is Some && !found.contains(self.port->Some_0) {
            (SerialState { port: None, ..self }, PortReport::UnexpectedDisconnection(ports))
        } else {
            (self, PortReport::PortsFound(ports))
        }
    }
}

/// The manager of a serial port.
#[derive(Debug)]
pub struct SerialThread {
    port: Option<String>,
    baud_rate: u32,
}

impl View for SerialThread {
    type V = SerialState;

    closed spec fn view(&self) -> SerialState {
        SerialState { port: self.port.deep_view(), baud_rate: self.baud_rate }
    }
}

impl SerialThread {
    /// A manager with no port open.
    pub fn new() -> (manager: SerialThread)
        ensures
            manager@ == (SerialState { port: None, baud_rate: DEFAULT_BAUD_RATE }),
    {
        SerialThread { port: None, baud_rate: DEFAULT_BAUD_RATE }
    }

    /// Whether the time has come for the next scan, `elapsed_ms` after the last one.
    pub fn scan_due(elapsed_ms: u64) -> (due: bool)
        ensures
            due == (elapsed_ms > PORT_SCAN_TIME_MS),
    {
        elapsed_ms > PORT_SCAN_TIME_MS
    }

    /// Takes a command: see `SerialState::commanded`.
    pub fn on_command(&mut self, command: SerialCommand) -> (step: SerialStep)
        ensures
            final(self)@ == old(self)@.commanded(command@).0,
            step@ == old(self)@.commanded(command@).1,
    {
        match command {
            SerialCommand::ConnectToPort { name, baud } => {
                self.baud_rate = baud;
                SerialStep::Open { name, baud }
            },
            SerialCommand::ChangePort(_) => SerialStep::Nothing,
            SerialCommand::Disconnect => {
                self.port = None;
                SerialStep::Reply(SerialResponse::DisconnectSuccess)
            },
        }
    }

    /// Takes the outcome of opening `name`: see `SerialState::opened`.
    pub fn on_opened(&mut self, name: String, outcome: Result<(), CommError>) -> (reply:
        SerialResponse)
        ensures
            final(self)@ == old(self)@.opened(name@, crate::event::outcome_view(outcome)).0,
            reply@ == old(self)@.opened(name@, crate::event::outcome_view(outcome)).1,
    {
        match outcome {
            Ok(_) => {
                self.port = Some(name.clone());
                SerialResponse::OpenPortSuccess(name)
            },
            Err(error) => SerialResponse::OpenPortError(error),
        }
    }

    /// Takes what a scan found: see `SerialState::scanned`.
    pub fn on_scan(&mut self, found: Vec<String>) -> (reply: SerialResponse)
        ensures
            final(self)@ == old(self)@.scanned(found.deep_view()).0,
            reply@ == old(self)@.scanned(found.deep_view()).1,
    {
        let ports = sort_ports(found);
        proof {
            lemma_sorted_ports(found.deep_view());
        }
        let lost = match &self.port {
            Some(name) => !has_port(&ports, name),
            None => false,
        };
        if lost {
            self.port = None;
            SerialResponse::UnexpectedDisconnection(ports)
        } else {
            SerialResponse::PortsFound(ports)
        }
    }
}

/// Sorted port names are sorted, and are the names that were found.
proof fn lemma_sorted_ports(found: Seq<Seq<char>>)
    ensures
        sorted_by(found.sort_by(port_order()), port_order()),
        forall|name: Seq<char>| #[trigger]
            found.sort_by(port_order()).contains(name) == found.contains(name),
{
    broadcast use group_to_multiset_ensures;

    lemma_port_order_total();
    found.lemma_sort_by_ensures(port_order());
    let sorted = found.sort_by(port_order());
    assert forall|name: Seq<char>| #[trigger] sorted.contains(name) == found.contains(name) by {
        assert(sorted.contains(name) <==> sorted.to_multiset().count(name) > 0);
        assert(found.contains(name) <==> found.to_multiset().count(name) > 0);
    }
}

/// Looks `name` up in the sorted list `ports`, by halving.
fn has_port(ports: &Vec<String>, name: &String) -> (found: bool)
    requires
        sorted_by(ports.deep_view(), port_order()),
    ensures
        found == ports.deep_view().contains(name@),
{
    let ghost names = ports.deep_view();
    let mut low: usize = 0;
    let mut high: usize = ports.len();
    proof {
        lemma_port_order_total();
    }
    while low < high
        invariant
            names == ports.deep_view(),
            sorted_by(names, port_order()),
            total_ordering(port_order()),
            0 <= low <= high <= ports.len(),
            forall|k: int| 0 <= k < low ==> !port_le(name@, #[trigger] names[k]),
            forall|k: int| high <= k < names.len() ==> !port_le(#[trigger] names[k], name@),
        decreases high - low,
    {
        let mid = low + (high - low) / 2;
        let below = port_name_le(&ports[mid], name);
        let above = port_name_le(name, &ports[mid]);
        let ghost at = names[mid as int];
        if below && above {
            proof {
                assert(port_order()(at, name@) && port_order()(name@, at));
                assert(at == name@);
            }
            return true;
        } else if below {
            proof {
                assert forall|k: int| 0 <= k < mid + 1 implies !port_le(
                    name@,
                    #[trigger] names[k],
                ) by {
                    if k < mid && port_le(name@, names[k]) {
                        assert(port_order()(names[k], at));
                        assert(port_order()(name@, names[k]) && port_order()(names[k], at)
                            ==> port_order()(name@, at));
                    }
                }
            }
            low = mid + 1;
        } else {
            proof {
                assert forall|k: int| mid <= k < names.len() implies !port_le(
                    #[trigger] names[k],
                    name@,
                ) by {
                    if mid < k && port_le(names[k], name@) {
                        assert(port_order()(at, names[k]));
                        assert(port_order()(at, names[k]) && port_order()(names[k], name@)
                            ==> port_order()(at, name@));
                    }
                }
            }
            high = mid;
        }
    }
    proof {
        assert forall|k: int| 0 <= k < names.len() implies names[k] != name@ by {
            assert(port_order()(name@, name@));
        }
    }
    false
}

} // verus!
