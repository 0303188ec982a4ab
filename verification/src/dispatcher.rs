//! The command dispatcher: the one place that owns the connection state.
//!
//! It takes one command at a time and says what is to be done for it. Its
//! driver does that, in order, before it hands over the next command, so no
//! two commands ever run side by side.

use vstd::prelude::*;

use crate::action::{first_step, ActionRequest, ActionStep, DeviceAction};
use crate::command::{Command, TokioCommand};
use crate::connection::TokioState;
use crate::error::{CommError, Failure};
use crate::event::{ActionTag, Event, UiCommand};
use crate::session::{session_for, session_request, Session, SessionRequest};

verus! {

/// One thing that the driver is to do for a command.
#[derive(Debug, PartialEq, Eq)]
pub enum Task {
    /// Send this event to the presentation layer.
    Emit(UiCommand),
    /// Enumerate the serial ports now and send `ports_changed` of what was found.
    ScanPorts,
    /// Open this session and start a register poller on it, as a task of
    /// its own. If the session cannot be opened, tell `session_failed`.
    StartPoller(SessionRequest),
    /// Run this device action to its end and send the event that it finishes with.
    RunAction(ActionRequest),
}

/// The mathematical value of a `Task`.
pub enum Effect {
    Emit(Event),
    ReportPorts,
    StartPoller(Session),
    RunAction(ActionStep),
}

impl View for Task {
    type V = Effect;

    open spec fn view(&self) -> Effect {
        match self {
            Task::Emit(event) => Effect::Emit(event@),
            Task::ScanPorts => Effect::ReportPorts,
            Task::StartPoller(session) => Effect::StartPoller(session@),
            Task::RunAction(request) => Effect::RunAction(request@),
        }
    }
}

/// The mathematical value of a list of tasks.
pub open spec fn effects_view(tasks: Seq<Task>) -> Seq<Effect> {
    Seq::new(tasks.len(), |i: int| tasks[i]@)
}

/// What taking the connection down brings: the presentation layer is told,
/// and it gets a fresh snapshot of the ports.
pub open spec fn disconnect_effects() -> Seq<Effect> {
    seq![Effect::Emit(Event::DisconnectedUIState), Effect::ReportPorts]
}

/// What a session that cannot be had brings: one error event with the
/// failure's text, then what taking the connection down brings.
pub open spec fn failure_effects(failure: Failure) -> Seq<Effect> {
    seq![Effect::Emit(Event::Error(failure.detail))] + disconnect_effects()
}

/// What a device action's first step brings: the action is run, or, where it
/// is over before it began, its result is sent.
pub open spec fn action_effects(step: ActionStep) -> Seq<Effect> {
    match step {
        ActionStep::Finish(event) => seq![Effect::Emit(event)],
        _ => seq![Effect::RunAction(step)],
    }
}

/// The dispatcher's rule: the connection state after `command`, and what is
/// to be done for it.
///
/// `Connect` marks the connection as up and tells the presentation layer.
/// `UpdateSensor` does the same and starts the poller on the session that it
/// names; where it names no port, the connection is taken down instead and
/// one error is reported. `Disconnect` takes the connection down, whatever
/// it was. A device action leaves the connection state as it is.
pub open spec fn dispatch(state: TokioState, command: Command) -> (TokioState, Seq<Effect>) {
    match command {
        Command::Connect => (TokioState::Connected, seq![Effect::Emit(Event::ConnectedUIState)]),
        Command::Disconnect => (TokioState::Disconnected, disconnect_effects()),
        Command::UpdateSensor(port, address) => match session_for(port, address) {
            Ok(session) => (
                TokioState::Connected,
                seq![Effect::Emit(Event::ConnectedUIState), Effect::StartPoller(session)],
            ),
            Err(failure) => (TokioState::Disconnected, failure_effects(failure)),
        },
        Command::Nullpunkt(port, address) => (
            state,
            action_effects(first_step(ActionTag::Nullpunkt, port, address, 0)),
        ),
        Command::Messgas(port, address) => (
            state,
            action_effects(first_step(ActionTag::Messgas, port, address, 0)),
        ),
        Command::NewWorkingMode(port, address, mode) => (
            state,
            action_effects(first_step(ActionTag::NewWorkingMode, port, address, mode)),
        ),
        Command::NewModbusAddress(port, address, new_address) => (
            state,
            action_effects(
                first_step(ActionTag::NewModbusAddress, port, address, new_address as u16),
            ),
        ),
    }
}

/// The dispatcher.
#[derive(Debug)]
pub struct TokioThread {
    state: TokioState,
}

impl View for TokioThread {
    type V = TokioState;

    closed spec fn view(&self) -> TokioState {
        self.state
    }
}

impl TokioThread {
    /// A dispatcher whose connection is down.
    pub fn new() -> (dispatcher: TokioThread)
        ensures
            dispatcher@ == TokioState::Disconnected,
    {
        TokioThread { state: TokioState::Disconnected }
    }

    /// The connection state, for the poller to look at.
    pub fn state(&self) -> (state: TokioState)
        ensures
            state == self@,
    {
        self.state
    }

    /// Handles one command: see `dispatch`.
    pub fn handle(&mut self, command: TokioCommand) -> (tasks: Vec<Task>)
        ensures
            final(self)@ == dispatch(old(self)@, command@).0,
            effects_view(tasks@) == dispatch(old(self)@, command@).1,
    {
        let mut tasks: Vec<Task> = Vec::new();
        match command {
            TokioCommand::Connect => {
                self.state = TokioState::Connected;
                tasks.push(Task::Emit(UiCommand::DisableConnectUiElements));
            },
            TokioCommand::Disconnect => {
                self.take_down(&mut tasks);
            },
            TokioCommand::UpdateSensor(port, address) => {
                match session_request(port, address) {
                    Ok(session) => {
                        self.state = TokioState::Connected;
                        tasks.push(Task::Emit(UiCommand::DisableConnectUiElements));
                        tasks.push(Task::StartPoller(session));
                    },
                    Err(error) => {
                        tasks.push(Task::Emit(UiCommand::Error(error.detail)));
                        self.take_down(&mut tasks);
                    },
                }
            },
            TokioCommand::Nullpunkt(port, address) => {
                run(DeviceAction::start(ActionTag::Nullpunkt, port, address, 0), &mut tasks);
            },
            TokioCommand::Messgas(port, address) => {
                run(DeviceAction::start(ActionTag::Messgas, port, address, 0), &mut tasks);
            },
            TokioCommand::NewWorkingMode(port, address, mode) => {
                run(DeviceAction::start(ActionTag::NewWorkingMode, port, address, mode), &mut tasks);
            },
            TokioCommand::NewModbusAddress(port, address, new_address) => {
                let value: u16 = new_address.into();
                run(
                    DeviceAction::start(ActionTag::NewModbusAddress, port, address, value),
                    &mut tasks,
                );
            },
        }
        proof {
            assert(effects_view(tasks@) =~= dispatch(old(self)@, command@).1);
        }
        tasks
    }

    /// Takes the news that the session for the poller could not be opened:
    /// the connection is taken down and the failure is reported once.
    pub fn session_failed(&mut self, error: CommError) -> (tasks: Vec<Task>)
        ensures
            final(self)@ == TokioState::Disconnected,
            effects_view(tasks@) == failure_effects(error@),
    {
        let mut tasks: Vec<Task> = Vec::new();
        tasks.push(Task::Emit(UiCommand::Error(error.detail)));
        self.take_down(&mut tasks);
        proof {
            assert(effects_view(tasks@) =~= failure_effects(error@));
        }
        tasks
    }

    /// Sets the state to disconnected and appends what that brings.
    fn take_down(&mut self, tasks: &mut Vec<Task>)
        ensures
            final(self)@ == TokioState::Disconnected,
            final(tasks)@ == old(tasks)@.push(Task::Emit(UiCommand::EnableConnectUiElements)).push(
                Task::ScanPorts,
            ),
    {
        self.state = TokioState::Disconnected;
        tasks.push(Task::Emit(UiCommand::EnableConnectUiElements));
        tasks.push(Task::ScanPorts);
    }
}

/// Appends what the first step of a device action brings.
fn run(request: ActionRequest, tasks: &mut Vec<Task>)
    requires
        old(tasks)@.len() == 0,
    ensures
        effects_view(final(tasks)@) == action_effects(request@),
{
    match request {
        ActionRequest::Finish(event) => {
            tasks.push(Task::Emit(event));
        },
        other => {
            tasks.push(Task::RunAction(other));
        },
    }
    proof {
        assert(effects_view(tasks@) =~= action_effects(request@));
    }
}

/// Taking the connection down is idempotent: on a connection that is down
/// already it changes nothing, and it tells the presentation layer again
/// and asks for a fresh snapshot of the ports, as it did the first time.
pub proof fn lemma_disconnect_idempotent(state: TokioState)
    ensures
        ({
            let once = dispatch(state, Command::Disconnect);
            let twice = dispatch(once.0, Command::Disconnect);
            &&& once.0 == TokioState::Disconnected
            &&& twice == once
            &&& twice.1 == seq![Effect::Emit(Event::DisconnectedUIState), Effect::ReportPorts]
        }),
{
}

/// A device action never touches the connection state. All that its
/// command brings is one thing: the run of that action, or, where no port
/// is named, the event that reports the action's failure.
pub proof fn lemma_actions_keep_state(state: TokioState, command: Command)
    requires
        command.action() is Some,
    ensures
        ({
            let tag = command.action()->Some_0;
            let done = dispatch(state, command);
            &&& done.0 == state
            &&& done.1.len() == 1
            &&& match done.1[0] {
                Effect::Emit(event) => event matches Event::ActionResult(t, outcome) && t == tag
                    && outcome is Err,
                Effect::RunAction(step) => step matches ActionStep::Open(_, action) && action.tag
                    == tag,
                _ => false,
            }
        }),
{
}

/// The connection state after a command depends on the command alone,
/// unless the command is a device action.
pub proof fn lemma_state_after(state: TokioState, other: TokioState, command: Command)
    requires
        command.action() is None,
    ensures
        dispatch(state, command) == dispatch(other, command),
{
}

} // verus!
