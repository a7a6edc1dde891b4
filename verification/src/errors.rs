//! The stable error taxonomy that the bridge surfaces to its caller.
//!
//! Every failure of a dispatched command is reported as one of these typed
//! values; no raw transport or OS-level error ever crosses the command
//! boundary, and no failure is fatal to the hosting application.

use vstd::prelude::*;

verus! {

/// Why a dispatched command failed.
#[derive(Debug, Clone, PartialEq, Eq)]
pub enum DispatchError {
    /// The command name is not in the closed command table.
    UnknownCommand,
    /// The arguments do not satisfy the command's argument schema.
    InvalidArgument,
    /// The worker process is not reachable or not yet started.
    WorkerUnavailable,
    /// No response arrived within the call's deadline.
    Timeout,
    /// The worker reports that the command is not valid in its current
    /// state (for example, stopping a recording when none is active).
    InvalidState,
    /// The worker executed the command but reported an application-level
    /// failure; the bytes are its opaque message.
    WorkerError(Vec<u8>),
    /// The call was aborted because the session shut down.
    Canceled,
}

impl DispatchError {
    /// A short stable label for the error, for logs and user messages.
    pub fn label(&self) -> (r: &'static str)
        ensures
            r@ == self.spec_label(),
    {
        match self {
            DispatchError::UnknownCommand => "unknown_command",
            DispatchError::InvalidArgument => "invalid_argument",
            DispatchError::WorkerUnavailable => "worker_unavailable",
            DispatchError::Timeout => "timeout",
            DispatchError::InvalidState => "invalid_state",
            DispatchError::WorkerError(_) => "worker_error",
            DispatchError::Canceled => "canceled",
        }
    }

    /// What `label` returns for each variant.
    pub open spec fn spec_label(&self) -> Seq<char> {
        match self {
            DispatchError::UnknownCommand => "unknown_command"@,
            DispatchError::InvalidArgument => "invalid_argument"@,
            DispatchError::WorkerUnavailable => "worker_unavailable"@,
            DispatchError::Timeout => "timeout"@,
            DispatchError::InvalidState => "invalid_state"@,
            DispatchError::WorkerError(_) => "worker_error"@,
            DispatchError::Canceled => "canceled"@,
        }
    }
}

} // verus!
