//! The aggregation façade.

use vstd::prelude::*;

use crate::entry::{Address, CallEntry};
use crate::store::{PendingCallStore, SharedStore};

verus! {

/// How many milliseconds pass between two drains of the background loop
/// unless [`Multicall::with_interval`] says otherwise.
pub const DEFAULT_INTERVAL_MILLIS: u64 = 50;

/// The aggregation façade: the account of the batching endpoint, the drain
/// interval of the background loop, and the shared pending-call buffer.
///
/// Producers append calls through [`Multicall::add_call`]; a drain — on
/// demand through [`Multicall::drain_calls`], or each tick of a loop driven
/// from outside — atomically takes everything buffered so far. Cloning the
/// façade clones the handle, not the buffer: every clone feeds the same
/// batch.
pub struct Multicall {
    /// Pending calls get drained every `interval` milliseconds.
    interval: u64,
    /// The account of the batching endpoint.
    address: Address,
    /// Calls waiting for the next drain.
    calls: SharedStore,
}

impl Multicall {
    /// The drain interval, in milliseconds.
    pub closed spec fn interval_millis(self) -> u64 {
        self.interval
    }

    /// The account of the batching endpoint.
    pub closed spec fn destination(self) -> Address {
        self.address
    }

    /// A new aggregator for the given batching endpoint, with the default
    /// drain interval and an empty buffer.
    pub fn new(address: Address) -> (r: Multicall)
        ensures
            r.interval_millis() == DEFAULT_INTERVAL_MILLIS,
            r.destination() == address,
    {
        Multicall {
            interval: DEFAULT_INTERVAL_MILLIS,
            address,
            calls: SharedStore::new(PendingCallStore::new()),
        }
    }

    /// Override the interval (milliseconds) at which pending calls are
    /// drained; meant to be set before the background loop starts.
    pub fn with_interval(self, interval: u64) -> (r: Multicall)
        ensures
            r.interval_millis() == interval,
            r.destination() == self.destination(),
    {
        Multicall { interval, address: self.address, calls: self.calls }
    }

    /// Append one call to the shared buffer. Nothing is validated here —
    /// validation happens when a drained batch is prepared — and many
    /// producers may append concurrently, also while a loop is draining.
    pub fn add_call(&self, entry: CallEntry) {
        self.calls.add(entry);
    }

    /// Atomically take every pending call, in insertion order, leaving the
    /// buffer empty. Calls appended after this drain began wait for the
    /// next one.
    pub fn drain_calls(&self) -> Vec<CallEntry> {
        self.calls.drain_all()
    }

    /// The drain interval, in milliseconds.
    pub fn interval_ms(&self) -> (r: u64)
        ensures
            r == self.interval_millis(),
    {
        self.interval
    }

    /// The account of the batching endpoint, as handed to [`Multicall::new`].
    pub fn endpoint(&self) -> (r: Address)
        ensures
            r == self.destination(),
    {
        self.address
    }
}

impl Clone for Multicall {
    /// Another handle to the same aggregator: same interval, same endpoint,
    /// same shared buffer.
    fn clone(&self) -> (r: Multicall)
        ensures
            r.interval_millis() == self.interval_millis(),
            r.destination() == self.destination(),
    {
        Multicall { interval: self.interval, address: self.address, calls: self.calls.clone() }
    }
}

} // verus!
