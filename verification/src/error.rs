//! Why a batch fails, and what the scheduler publishes.

use vstd::prelude::*;

verus! {

/// Why a batch was not executed, or why its execution failed.
#[derive(Clone, Debug, PartialEq, Eq)]
pub enum ExecutionError {
    /// An entry had no usable destination. Detected before dispatch: a batch
    /// holding such an entry never causes a network call.
    InvalidTarget,
    /// The backend call itself failed; carries the collaborator's message.
    BackendError(String),
}

} // verus!
