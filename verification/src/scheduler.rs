//! The per-tick decision of the timer-driven drain loop.
//!
//! The loop itself — the timer, the channel and the network call — runs
//! outside the library. Each tick it drains the shared buffer, asks
//! [`plan_tick`] what to do with what it found, dispatches a planned batch to
//! the backend, and publishes the outcome. The decision is verified here for
//! every drain result; the loop only carries it out.

use vstd::prelude::*;

use crate::entry::{batch_is_valid, entries_model, CallEntry};
use crate::error::ExecutionError;
use crate::executor::{prepare_batch, wire_batch_matches, wires_model, BatchResult, WireCall};

verus! {

/// What the scheduler publishes for one non-empty tick: the batch's result,
/// or the error that took its place. Ticks that drained nothing publish
/// nothing.
pub type ScheduledOutcome = Result<BatchResult, ExecutionError>;

/// What one timer tick does with the drained batch.
pub enum TickAction {
    /// The outcome channel has no consumer left: the loop ends cleanly,
    /// without touching the backend again.
    Terminate,
    /// Nothing was drained this tick: nothing is published, the loop waits
    /// for the next tick.
    Idle,
    /// A validated batch in insertion order, ready for one backend call;
    /// its outcome — success or backend failure — is published.
    Dispatch(Vec<WireCall>),
    /// A structurally invalid entry was drained: the loop ends with this as
    /// its terminal error, publishing nothing for this or any later tick.
    Abort(ExecutionError),
}

/// Decide one tick of the drain loop from what the tick saw: whether the
/// outcome channel still has its consumer, and what the atomic drain of the
/// buffer returned.
///
/// An empty drain is silent — no outcome, not even an empty success. A
/// non-empty drain is never silent: it is dispatched this very tick, or it
/// ends the loop. A backend failure after a dispatch is not decided here:
/// the loop publishes it and goes on.
pub fn plan_tick(consumer_gone: bool, drained: Vec<CallEntry>) -> (action: TickAction)
    ensures
        consumer_gone ==> action is Terminate,
        !consumer_gone && entries_model(drained@).len() == 0 ==> action is Idle,
        !consumer_gone && entries_model(drained@).len() > 0 ==> !(action is Idle),
        !consumer_gone && entries_model(drained@).len() > 0 && batch_is_valid(
            entries_model(drained@),
        ) ==> (action matches TickAction::Dispatch(calls) && wire_batch_matches(
            entries_model(drained@),
            wires_model(calls@),
        )),
        !consumer_gone && !batch_is_valid(entries_model(drained@)) ==> action
            == TickAction::Abort(ExecutionError::InvalidTarget),
{
    if consumer_gone {
        return TickAction::Terminate;
    }
    if drained.len() == 0 {
        return TickAction::Idle;
    }
    match prepare_batch(&drained) {
        Ok(calls) => TickAction::Dispatch(calls),
        Err(error) => TickAction::Abort(error),
    }
}

} // verus!
