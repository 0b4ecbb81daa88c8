//! Validation of a drained batch and its conversion to the wire shape.

use vstd::prelude::*;

use crate::entry::{batch_is_valid, entries_model, entry_is_valid, Address, CallEntry, EntryModel,
    Target};
use crate::error::ExecutionError;
use crate::store::{after_adds, lemma_after_adds_is_concat};

verus! {

/// The backend's native shape for one aggregated call: a concrete account
/// and the bytes to hand it.
#[derive(Clone, Debug)]
pub struct WireCall {
    pub target: Address,
    pub call_data: Vec<u8>,
}

/// The mathematical model of one wire call.
pub ghost struct WireModel {
    pub target: Address,
    pub call_data: Seq<u8>,
}

impl View for WireCall {
    type V = WireModel;

    open spec fn view(&self) -> WireModel {
        WireModel { target: self.target, call_data: self.call_data@ }
    }
}

/// The wire batch a vector of calls stands for, call by call, in order.
pub open spec fn wires_model(v: Seq<WireCall>) -> Seq<WireModel> {
    v.map_values(|w: WireCall| w@)
}

/// The wire call a valid entry converts to: the entry's account, the entry's
/// payload, nothing added and nothing reordered.
pub open spec fn wire_matches(e: EntryModel, w: WireModel) -> bool {
    match e.target {
        Target::Account(a) => w.target == a && w.call_data == e.payload,
        _ => false,
    }
}

/// A whole batch converted entry by entry: `w[i]` is the wire call of `b[i]`.
pub open spec fn wire_batch_matches(b: Seq<EntryModel>, w: Seq<WireModel>) -> bool {
    &&& w.len() == b.len()
    &&& forall|i: int| 0 <= i < b.len() ==> wire_matches(b[i], #[trigger] w[i])
}

/// What one successful batch execution produced: the backend's execution
/// marker and one opaque outcome per submitted call, in submission order.
#[derive(Clone, Debug)]
pub struct BatchResult {
    pub block_number: u64,
    pub return_data: Vec<Vec<u8>>,
}

/// Validate a drained batch and convert it to the backend's wire shape.
///
/// Entries are checked in insertion order. The whole batch is rejected as
/// soon as one entry lacks a concrete account — nothing of the batch is
/// dispatched in that case — and otherwise the wire batch pairs call `i`
/// with entry `i`, so the backend's outcome `i` answers entry `i`.
pub fn prepare_batch(entries: &Vec<CallEntry>) -> (r: Result<Vec<WireCall>, ExecutionError>)
    ensures
        r is Ok <==> batch_is_valid(entries_model(entries@)),
        r matches Ok(calls) ==> wire_batch_matches(entries_model(entries@), wires_model(calls@)),
        r matches Err(e) ==> e == ExecutionError::InvalidTarget,
{
    let ghost batch = entries_model(entries@);
    let mut calls: Vec<WireCall> = Vec::new();
    let mut idx: usize = 0;
    while idx < entries.len()
        invariant
            idx <= entries@.len(),
            batch == entries_model(entries@),
            calls@.len() == idx,
            forall|i: int| 0 <= i < idx ==> entry_is_valid(#[trigger] batch[i]),
            forall|i: int| 0 <= i < idx ==> wire_matches(batch[i], #[trigger] calls@[i]@),
        decreases entries@.len() - idx,
    {
        let entry = &entries[idx];
        match entry.target {
            Target::Account(address) => {
                let data = entry.payload.clone();
                proof {
                    assert(data@ =~= entry.payload@);
                }
                calls.push(WireCall { target: address, call_data: data });
            }
            _ => {
                proof {
                    assert(!entry_is_valid(batch[idx as int]));
                }
                return Err(ExecutionError::InvalidTarget);
            }
        }
        idx += 1;
    }
    proof {
        assert(wires_model(calls@) =~= calls@.map_values(|w: WireCall| w@));
    }
    Ok(calls)
}

/// Order preservation: entries appended one by one to an empty buffer and
/// drained once come back as the very sequence that was appended, and a
/// batch prepared from that drain pairs wire call `i` — hence the backend's
/// outcome `i` — with appended entry `i`, for every `i`.
pub proof fn lemma_order_preservation(added: Seq<EntryModel>, wires: Seq<WireModel>)
    requires
        wire_batch_matches(after_adds(Seq::<EntryModel>::empty(), added), wires),
    ensures
        wires.len() == added.len(),
        forall|i: int| 0 <= i < added.len() ==> wire_matches(added[i], #[trigger] wires[i]),
{
    lemma_after_adds_is_concat(Seq::<EntryModel>::empty(), added);
    assert(Seq::<EntryModel>::empty() + added =~= added);
}

} // verus!
