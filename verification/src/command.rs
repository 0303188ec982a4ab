//! What the presentation layer asks of the core.

use vstd::prelude::*;

use crate::event::ActionTag;

verus! {

/// A command for the core. The commands are handled one at a time, in the
/// order in which they were sent.
#[derive(Debug, PartialEq, Eq)]
pub enum TokioCommand {
    /// Mark the connection as up.
    Connect,
    /// Take the connection down.
    Disconnect,
    /// Calibrate with test gas: port, device address.
    Messgas(Option<String>, u8),
    /// Set the working mode: port, device address, mode.
    NewWorkingMode(Option<String>, u8, u16),
    /// Change the bus address: port, device address, new address.
    NewModbusAddress(Option<String>, u8, u8),
    /// Calibrate the zero point: port, device address.
    Nullpunkt(Option<String>, u8),
    /// Connect and poll the registers: port, device address.
    UpdateSensor(Option<String>, u8),
}

/// The mathematical value of a `TokioCommand`.
pub enum Command {
    Connect,
    Disconnect,
    UpdateSensor(Option<Seq<char>>, u8),
    Nullpunkt(Option<Seq<char>>, u8),
    Messgas(Option<Seq<char>>, u8),
    NewWorkingMode(Option<Seq<char>>, u8, u16),
    NewModbusAddress(Option<Seq<char>>, u8, u8),
}

impl View for TokioCommand {
    type V = Command;

    open spec fn view(&self) -> Command {
        match self {
            TokioCommand::Connect => Command::Connect,
            TokioCommand::Disconnect => Command::Disconnect,
            TokioCommand::Messgas(port, address) => Command::Messgas(port.deep_view(), *address),
            TokioCommand::NewWorkingMode(port, address, mode) => Command::NewWorkingMode(
                port.deep_view(),
                *address,
                *mode,
            ),
            TokioCommand::NewModbusAddress(port, address, new_address) => Command::NewModbusAddress(
                port.deep_view(),
                *address,
                *new_address,
            ),
            TokioCommand::Nullpunkt(port, address) => Command::Nullpunkt(
                port.deep_view(),
                *address,
            ),
            TokioCommand::UpdateSensor(port, address) => Command::UpdateSensor(
                port.deep_view(),
                *address,
            ),
        }
    }
}

impl Command {
    /// The device action that this command asks for, if it asks for one.
    pub open spec fn action(self) -> Option<ActionTag> {
        match self {
            Command::Nullpunkt(_, _) => Some(ActionTag::Nullpunkt),
            Command::Messgas(_, _) => Some(ActionTag::Messgas),
            Command::NewWorkingMode(_, _, _) => Some(ActionTag::NewWorkingMode),
            Command::NewModbusAddress(_, _, _) => Some(ActionTag::NewModbusAddress),
            _ => None,
        }
    }
}

} // verus!
