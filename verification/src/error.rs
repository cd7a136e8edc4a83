//! The error taxonomy shared by every component.

use vstd::prelude::*;
use vstd::string::*;

verus! {

/// Every way an operation of this library can fail.
#[derive(Clone, Copy, Debug, PartialEq, Eq, Structural)]
pub enum ObsError {
    /// Work was submitted while the runtime was not in the running state.
    NotRunning,
    /// The engine returned no object for a construction request.
    NullHandle,
    /// No variant of a platform-specific implementation is usable.
    PlatformUnsupported,
    /// The body of a command failed while it was executing.
    ExecutionFailed,
    /// The executor thread itself died; the runtime is poisoned.
    WorkerFailed,
    /// The caller violated a documented precondition.
    InvalidOperation,
}

impl ObsError {
    /// What the error says, in words.
    pub open spec fn text(self) -> Seq<char> {
        match self {
            ObsError::NotRunning => "the runtime is not running"@,
            ObsError::NullHandle => "the engine returned no object"@,
            ObsError::PlatformUnsupported => "no platform could be found"@,
            ObsError::ExecutionFailed => "the command failed while it ran"@,
            ObsError::WorkerFailed => "the executor thread died"@,
            ObsError::InvalidOperation => "the operation is not valid here"@,
        }
    }

    /// What the error says, in words.
    pub fn message(&self) -> (message: String)
        ensures
            message@ == self.text(),
    {
        match self {
            ObsError::NotRunning => "the runtime is not running".to_string(),
            ObsError::NullHandle => "the engine returned no object".to_string(),
            ObsError::PlatformUnsupported => "no platform could be found".to_string(),
            ObsError::ExecutionFailed => "the command failed while it ran".to_string(),
            ObsError::WorkerFailed => "the executor thread died".to_string(),
            ObsError::InvalidOperation => "the operation is not valid here".to_string(),
        }
    }

    /// Whether the error says that the runtime can no longer serve any work.
    pub fn is_terminal(&self) -> (r: bool)
        ensures
            r == (*self == ObsError::NotRunning || *self == ObsError::WorkerFailed),
    {
        match self {
            ObsError::NotRunning => true,
            ObsError::WorkerFailed => true,
            _ => false,
        }
    }
}

} // verus!
