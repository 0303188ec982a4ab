//! The device actions: one-shot writes that calibrate or configure the sensor.
//!
//! Each action has a session of its own and never looks at the connection
//! state. The action decides; its driver opens the session and writes.
//!
//! The two configuring actions first write a key into the unlock register.
//! That write is best effort: whether it fails or not, the configuring write
//! follows, and only the configuring write's outcome is the action's outcome.

use vstd::prelude::*;

use crate::error::{CommError, Failure};
use crate::event::{outcome_view, ActionTag, Event, UiCommand};
use crate::session::{session_for, session_request, Session, SessionRequest};

verus! {

/// One write of one register.
#[derive(Clone, Copy, Debug, PartialEq, Eq, Structural)]
pub struct RegisterWrite {
    pub offset: u16,
    pub value: u16,
}

/// The register that unlocks the configuration.
pub const UNLOCK_REGISTER: u16 = 49;

/// The key that unlocks the configuration.
pub const UNLOCK_KEY: u16 = 9876;

/// The value that starts a calibration.
pub const CALIBRATE: u16 = 11111;

/// The register that starts the zero point calibration.
pub const NULLPUNKT_REGISTER: u16 = 10;

/// The register that starts the test gas calibration.
pub const MESSGAS_REGISTER: u16 = 12;

/// The register that holds the working mode.
pub const WORKING_MODE_REGISTER: u16 = 99;

/// The register that holds the device's bus address.
pub const MODBUS_ADDRESS_REGISTER: u16 = 50;

/// The unlock write.
pub open spec fn unlock_write() -> RegisterWrite {
    RegisterWrite { offset: UNLOCK_REGISTER, value: UNLOCK_KEY }
}

/// Whether the action unlocks the configuration first.
pub open spec fn needs_unlock(tag: ActionTag) -> bool {
    tag == ActionTag::NewWorkingMode || tag == ActionTag::NewModbusAddress
}

/// The write that does what the action is for. `value` is the new working
/// mode or the new bus address; the calibrations do not use it.
pub open spec fn action_write(tag: ActionTag, value: u16) -> RegisterWrite {
    match tag {
        ActionTag::Nullpunkt => RegisterWrite { offset: NULLPUNKT_REGISTER, value: CALIBRATE },
        ActionTag::Messgas => RegisterWrite { offset: MESSGAS_REGISTER, value: CALIBRATE },
        ActionTag::NewWorkingMode => RegisterWrite { offset: WORKING_MODE_REGISTER, value },
        ActionTag::NewModbusAddress => RegisterWrite { offset: MODBUS_ADDRESS_REGISTER, value },
    }
}

/// What an action in progress waits for.
#[derive(Clone, Copy, Debug, PartialEq, Eq, Structural)]
pub enum ActionPhase {
    /// For the session to be opened.
    Opening,
    /// For the unlock write.
    Unlocking,
    /// For the write that the action is for.
    Writing,
}

/// A device action in progress.
#[derive(Clone, Copy, Debug, PartialEq, Eq, Structural)]
pub struct DeviceAction {
    pub tag: ActionTag,
    pub value: u16,
    pub phase: ActionPhase,
}

/// What the driver of an action is to do next. A request that needs an
/// answer carries the action to hand the answer to.
#[derive(Debug, PartialEq, Eq)]
pub enum ActionRequest {
    /// Open this session.
    Open(SessionRequest, DeviceAction),
    /// Write this register.
    Write(RegisterWrite, DeviceAction),
    /// The action is over: emit this event.
    Finish(UiCommand),
}

/// The mathematical value of an `ActionRequest`.
pub enum ActionStep {
    Open(Session, DeviceAction),
    Write(RegisterWrite, DeviceAction),
    Finish(Event),
}

impl View for ActionRequest {
    type V = ActionStep;

    open spec fn view(&self) -> ActionStep {
        match self {
            ActionRequest::Open(session, action) => ActionStep::Open(session@, *action),
            ActionRequest::Write(write, action) => ActionStep::Write(*write, *action),
            ActionRequest::Finish(event) => ActionStep::Finish(event@),
        }
    }
}

/// The first step of the action `tag` on `port` with the device at
/// `address`: to open the session, or, without a port, to report that the
/// transport is unavailable.
pub open spec fn first_step(
    tag: ActionTag,
    port: Option<Seq<char>>,
    address: u8,
    value: u16,
) -> ActionStep {
    match session_for(port, address) {
        Ok(session) => ActionStep::Open(
            session,
            DeviceAction { tag, value, phase: ActionPhase::Opening },
        ),
        Err(failure) => ActionStep::Finish(Event::ActionResult(tag, Err(failure))),
    }
}

impl DeviceAction {
    /// The write that this action is for.
    pub open spec fn write(self) -> RegisterWrite {
        action_write(self.tag, self.value)
    }

    /// The step after `outcome` came back.
    ///
    /// A session that cannot be opened ends the action with that failure.
    /// Once the session is open, a configuring action unlocks first; whatever
    /// comes of the unlock write, the action's own write follows. The outcome
    /// of the action's own write is the outcome of the action.
    pub open spec fn next_step(self, outcome: Result<(), Failure>) -> ActionStep {
        match self.phase {
            ActionPhase::Opening => match outcome {
                Err(failure) => ActionStep::Finish(Event::ActionResult(self.tag, Err(failure))),
                Ok(_) => if needs_unlock(self.tag) {
                    ActionStep::Write(
                        unlock_write(),
                        DeviceAction { phase: ActionPhase::Unlocking, ..self },
                    )
                } else {
                    ActionStep::Write(
                        self.write(),
                        DeviceAction { phase: ActionPhase::Writing, ..self },
                    )
                },
            },
            ActionPhase::Unlocking => ActionStep::Write(
                self.write(),
                DeviceAction { phase: ActionPhase::Writing, ..self },
            ),
            ActionPhase::Writing => ActionStep::Finish(Event::ActionResult(self.tag, outcome)),
        }
    }

    /// Starts the action `tag`: see `first_step`.
    pub fn start(tag: ActionTag, port: Option<String>, address: u8, value: u16) -> (request:
        ActionRequest)
        ensures
            request@ == first_step(tag, port.deep_view(), address, value),
    {
        match session_request(port, address) {
            Ok(session) => ActionRequest::Open(
                session,
                DeviceAction { tag, value, phase: ActionPhase::Opening },
            ),
            Err(error) => ActionRequest::Finish(UiCommand::action_result(tag, Err(error))),
        }
    }

    /// Takes the outcome of what was asked for last: see `next_step`.
    pub fn advance(self, outcome: Result<(), CommError>) -> (request: ActionRequest)
        ensures
            request@ == self.next_step(outcome_view(outcome)),
    {
        let own = self.own_write();
        match self.phase {
            ActionPhase::Opening => match outcome {
                Err(error) => ActionRequest::Finish(UiCommand::action_result(self.tag, Err(error))),
                Ok(_) => {
                    if self.unlocks() {
                        ActionRequest::Write(
                            RegisterWrite { offset: UNLOCK_REGISTER, value: UNLOCK_KEY },
                            DeviceAction {
                                tag: self.tag,
                                value: self.value,
                                phase: ActionPhase::Unlocking,
                            },
                        )
                    } else {
                        ActionRequest::Write(
                            own,
                            DeviceAction {
                                tag: self.tag,
                                value: self.value,
                                phase: ActionPhase::Writing,
                            },
                        )
                    }
                },
            },
            ActionPhase::Unlocking => ActionRequest::Write(
                own,
                DeviceAction { tag: self.tag, value: self.value, phase: ActionPhase::Writing },
            ),
            ActionPhase::Writing => ActionRequest::Finish(
                UiCommand::action_result(self.tag, outcome),
            ),
        }
    }

    /// Whether this action unlocks the configuration first.
    pub fn unlocks(&self) -> (unlocks: bool)
        ensures
            unlocks == needs_unlock(self.tag),
    {
        match self.tag {
            ActionTag::NewWorkingMode => true,
            ActionTag::NewModbusAddress => true,
            _ => false,
        }
    }

    /// The write that this action is for.
    pub fn own_write(&self) -> (write: RegisterWrite)
        ensures
            write == self.write(),
    {
        match self.tag {
            ActionTag::Nullpunkt => RegisterWrite { offset: NULLPUNKT_REGISTER, value: CALIBRATE },
            ActionTag::Messgas => RegisterWrite { offset: MESSGAS_REGISTER, value: CALIBRATE },
            ActionTag::NewWorkingMode => RegisterWrite {
                offset: WORKING_MODE_REGISTER,
                value: self.value,
            },
            ActionTag::NewModbusAddress => RegisterWrite {
                offset: MODBUS_ADDRESS_REGISTER,
                value: self.value,
            },
        }
    }
}

/// A whole action, driven from `step` on: the writes that are made, in
/// order, and the event that the action finishes with. `opened`, `unlocked`
/// and `written` are what comes back when the session is opened, from the
/// unlock write and from the action's own write. `steps` bounds the number
/// of requests that are answered; three are enough for every action.
pub open spec fn drive(
    step: ActionStep,
    opened: Result<(), Failure>,
    unlocked: Result<(), Failure>,
    written: Result<(), Failure>,
    steps: nat,
) -> (Seq<RegisterWrite>, Option<Event>)
    decreases steps,
{
    match step {
        ActionStep::Finish(event) => (Seq::empty(), Some(event)),
        ActionStep::Open(_, action) => if steps == 0 {
            (Seq::empty(), None)
        } else {
            drive(action.next_step(opened), opened, unlocked, written, (steps - 1) as nat)
        },
        ActionStep::Write(write, action) => if steps == 0 {
            (Seq::empty(), None)
        } else {
            let answer = if action.phase == ActionPhase::Unlocking {
                unlocked
            } else {
                written
            };
            let rest = drive(
                action.next_step(answer),
                opened,
                unlocked,
                written,
                (steps - 1) as nat,
            );
            (seq![write] + rest.0, rest.1)
        },
    }
}

/// How every device action goes. Without a port, or with a session that
/// cannot be opened, nothing is written and the action ends with that
/// failure. Otherwise a configuring action writes the unlock key and then
/// its own register, a calibration writes its own register only, and the
/// action ends with the outcome of its own write: what came of the unlock
/// write makes no difference.
pub proof fn lemma_action_run(
    tag: ActionTag,
    port: Option<Seq<char>>,
    address: u8,
    value: u16,
    opened: Result<(), Failure>,
    unlocked: Result<(), Failure>,
    written: Result<(), Failure>,
)
    ensures
        ({
            let run = drive(first_step(tag, port, address, value), opened, unlocked, written, 3);
            match session_for(port, address) {
                Err(failure) => run == (
                    Seq::<RegisterWrite>::empty(),
                    Some(Event::ActionResult(tag, Err(failure))),
                ),
                Ok(_) => match opened {
                    Err(failure) => run == (
                        Seq::<RegisterWrite>::empty(),
                        Some(Event::ActionResult(tag, Err(failure))),
                    ),
                    Ok(_) => run == (
                        if needs_unlock(tag) {
                            seq![unlock_write(), action_write(tag, value)]
                        } else {
                            seq![action_write(tag, value)]
                        },
                        Some(Event::ActionResult(tag, written)),
                    ),
                },
            }
        }),
{
    reveal_with_fuel(drive, 4);
    let run = drive(first_step(tag, port, address, value), opened, unlocked, written, 3);
    if session_for(port, address) is Ok && opened is Ok {
        if needs_unlock(tag) {
            assert(run.0 =~= seq![unlock_write(), action_write(tag, value)]);
        } else {
            assert(run.0 =~= seq![action_write(tag, value)]);
        }
    }
}

} // verus!
