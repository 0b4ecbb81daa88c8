//! Aggregation of many independent calls bound for one remote execution
//! endpoint into single batched round trips.
//!
//! Producers append [`entry::CallEntry`] values to a shared pending-call
//! buffer. A drain atomically empties the buffer; the drained batch is
//! validated and converted to the backend's wire shape before one network
//! call dispatches it. A timer-driven loop can repeat this every few
//! milliseconds, publishing one outcome per non-empty tick.
//!
//! The buffer, the batch validation and the per-tick decisions are verified;
//! the lock that shares the buffer, the timer and the network call itself are
//! the unverified rim around them.

pub mod entry;
pub mod error;
pub mod executor;
pub mod multicall;
pub mod scheduler;
pub mod store;
