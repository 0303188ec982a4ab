//! What the core tells the presentation layer.

use vstd::prelude::*;

use crate::error::{CommError, Failure};

verus! {

/// The device actions, by name.
#[derive(Clone, Copy, Debug, PartialEq, Eq, Structural)]
pub enum ActionTag {
    /// Calibrate the zero point.
    Nullpunkt,
    /// Calibrate with test gas.
    Messgas,
    /// Set the working mode.
    NewWorkingMode,
    /// Give the device a new bus address.
    NewModbusAddress,
}

/// An event for the presentation layer.
#[derive(Debug, PartialEq, Eq)]
pub enum UiCommand {
    /// The connection is up: the connect controls are to be disabled.
    DisableConnectUiElements,
    /// The connection is down: the connect controls are to be enabled.
    EnableConnectUiElements,
    /// Something failed; the text is for the user.
    Error(String),
    /// How the test gas calibration ended.
    Messgas(Result<(), CommError>),
    /// How the change of the bus address ended.
    NewModbusAddress(Result<(), CommError>),
    /// How the change of the working mode ended.
    NewWorkingMode(Result<(), CommError>),
    /// How the zero point calibration ended.
    Nullpunkt(Result<(), CommError>),
    /// The ports that can be chosen now.
    UpdatePorts(Vec<String>),
    /// One complete frame of register values, by offset.
    UpdateSensorValues(Vec<u16>),
}

/// The mathematical value of a `UiCommand`.
pub enum Event {
    ConnectedUIState,
    DisconnectedUIState,
    Error(Seq<char>),
    PortsChanged(Seq<Seq<char>>),
    RegistersUpdated(Seq<u16>),
    ActionResult(ActionTag, Result<(), Failure>),
}

/// The mathematical value of an action's outcome.
pub open spec fn outcome_view(outcome: Result<(), CommError>) -> Result<(), Failure> {
    match outcome {
        Ok(_) => Ok(()),
        Err(error) => Err(error@),
    }
}

impl View for UiCommand {
    type V = Event;

    open spec fn view(&self) -> Event {
        match self {
            UiCommand::DisableConnectUiElements => Event::ConnectedUIState,
            UiCommand::EnableConnectUiElements => Event::DisconnectedUIState,
            UiCommand::Error(text) => Event::Error(text@),
            UiCommand::Messgas(outcome) => Event::ActionResult(
                ActionTag::Messgas,
                outcome_view(*outcome),
            ),
            UiCommand::NewModbusAddress(outcome) => Event::ActionResult(
                ActionTag::NewModbusAddress,
                outcome_view(*outcome),
            ),
            UiCommand::NewWorkingMode(outcome) => Event::ActionResult(
                ActionTag::NewWorkingMode,
                outcome_view(*outcome),
            ),
            UiCommand::Nullpunkt(outcome) => Event::ActionResult(
                ActionTag::Nullpunkt,
                outcome_view(*outcome),
            ),
            UiCommand::UpdatePorts(ports) => Event::PortsChanged(ports.deep_view()),
            UiCommand::UpdateSensorValues(frame) => Event::RegistersUpdated(frame@),
        }
    }
}

/// The mathematical value of an event that may be missing.
pub open spec fn event_view(event: Option<UiCommand>) -> Option<Event> {
    match event {
        Some(event) => Some(event@),
        None => None,
    }
}

impl UiCommand {
    /// The event that reports how the action `tag` ended.
    pub fn action_result(tag: ActionTag, outcome: Result<(), CommError>) -> (event: UiCommand)
        ensures
            event@ == Event::ActionResult(tag, outcome_view(outcome)),
    {
        match tag {
            ActionTag::Nullpunkt => UiCommand::Nullpunkt(outcome),
            ActionTag::Messgas => UiCommand::Messgas(outcome),
            ActionTag::NewWorkingMode => UiCommand::NewWorkingMode(outcome),
            ActionTag::NewModbusAddress => UiCommand::NewModbusAddress(outcome),
        }
    }
}

} // verus!
