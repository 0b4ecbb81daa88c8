//! Pending calls and their mathematical model.

use vstd::prelude::*;

verus! {

/// A 20-byte account identifier: the batching endpoint itself and every call
/// target are named this way.
#[derive(Clone, Copy, Debug)]
pub struct Address {
    pub bytes: [u8; 20],
}

impl Address {
    /// An address from its 20 raw bytes.
    pub fn new(bytes: [u8; 20]) -> (r: Address)
        ensures
            r.bytes == bytes,
    {
        Address { bytes }
    }
}

/// Where a pending call is directed: at a concrete account, at the
/// contract-creation pseudo-destination, or nowhere at all.
#[derive(Clone, Copy, Debug)]
pub enum Target {
    /// No destination was set on the call.
    Absent,
    /// The call designates contract creation rather than an account.
    Create,
    /// The call is directed at a concrete account.
    Account(Address),
}

/// One pending call: a destination and an opaque, already-encoded payload.
#[derive(Clone, Debug)]
pub struct CallEntry {
    pub target: Target,
    pub payload: Vec<u8>,
}

impl CallEntry {
    /// An entry from its destination and payload.
    pub fn new(target: Target, payload: Vec<u8>) -> (r: CallEntry)
        ensures
            r@ == (EntryModel { target, payload: payload@ }),
    {
        CallEntry { target, payload }
    }
}

/// The mathematical model of one pending call.
pub ghost struct EntryModel {
    pub target: Target,
    pub payload: Seq<u8>,
}

impl View for CallEntry {
    type V = EntryModel;

    open spec fn view(&self) -> EntryModel {
        EntryModel { target: self.target, payload: self.payload@ }
    }
}

/// The batch a vector of entries stands for, entry by entry, in order.
pub open spec fn entries_model(v: Seq<CallEntry>) -> Seq<EntryModel> {
    v.map_values(|e: CallEntry| e@)
}

/// An entry may be dispatched only at a concrete account: an absent target or
/// the creation pseudo-destination must never reach the backend.
pub open spec fn entry_is_valid(e: EntryModel) -> bool {
    e.target is Account
}

/// A batch may be dispatched only when every one of its entries may be.
pub open spec fn batch_is_valid(b: Seq<EntryModel>) -> bool {
    forall|i: int| 0 <= i < b.len() ==> entry_is_valid(#[trigger] b[i])
}

} // verus!
