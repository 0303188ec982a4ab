//! The one piece of state that the dispatcher and the register poller share.

use vstd::prelude::*;

verus! {

/// Whether the application is currently talking to a device.
#[derive(Clone, Copy, Debug, PartialEq, Eq, Structural)]
pub enum TokioState {
    Connected,
    Disconnected,
}

impl TokioState {
    /// `true` exactly for `Connected`.
    pub fn is_connected(&self) -> (connected: bool)
        ensures
            connected == (*self == TokioState::Connected),
    {
        match self {
            TokioState::Connected => true,
            TokioState::Disconnected => false,
        }
    }
}

} // verus!
