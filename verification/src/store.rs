//! The ordered buffer of pending calls, and the lock that shares it.

use std::sync::Arc;

use vstd::prelude::*;

use crate::entry::{entries_model, CallEntry, EntryModel};

verus! {

/// An ordered buffer of pending calls: producers append at the tail, a drain
/// atomically empties it. Entries leave in exactly the order they entered.
pub struct PendingCallStore {
    entries: Vec<CallEntry>,
}

impl View for PendingCallStore {
    type V = Seq<EntryModel>;

    closed spec fn view(&self) -> Seq<EntryModel> {
        entries_model(self.entries@)
    }
}

impl PendingCallStore {
    /// A fresh buffer with nothing pending.
    pub fn new() -> (r: PendingCallStore)
        ensures
            r@ == Seq::<EntryModel>::empty(),
    {
        let store = PendingCallStore { entries: Vec::new() };
        proof {
            assert(store@ =~= Seq::<EntryModel>::empty());
        }
        store
    }

    /// How many calls are waiting.
    pub fn len(&self) -> (n: usize)
        ensures
            n == self@.len(),
    {
        self.entries.len()
    }

    /// Append one call at the tail; everything already buffered stays put.
    pub fn add(&mut self, entry: CallEntry)
        ensures
            final(self)@ == old(self)@.push(entry@),
    {
        let ghost entry_model = entry@;
        self.entries.push(entry);
        proof {
            assert(self@ =~= old(self)@.push(entry_model));
        }
    }

    /// Atomically hand every waiting call out, in insertion order, leaving
    /// the buffer empty: nothing is skipped and nothing can be drained twice.
    pub fn drain_all(&mut self) -> (drained: Vec<CallEntry>)
        ensures
            entries_model(drained@) == old(self)@,
            final(self)@ == Seq::<EntryModel>::empty(),
    {
        let mut taken: Vec<CallEntry> = Vec::new();
        core::mem::swap(&mut taken, &mut self.entries);
        proof {
            assert(self@ =~= Seq::<EntryModel>::empty());
        }
        taken
    }
}

/// The buffer's model after a run of appends: one [`PendingCallStore::add`]
/// per entry of `added`, oldest first.
pub open spec fn after_adds(s: Seq<EntryModel>, added: Seq<EntryModel>) -> Seq<EntryModel>
    decreases added.len(),
{
    if added.len() == 0 {
        s
    } else {
        after_adds(s.push(added[0]), added.skip(1))
    }
}

/// A run of appends concatenates its entries, in order, to what the buffer
/// already held.
pub proof fn lemma_after_adds_is_concat(s: Seq<EntryModel>, added: Seq<EntryModel>)
    ensures
        after_adds(s, added) == s + added,
    decreases added.len(),
{
    if added.len() == 0 {
        assert(s + added =~= s);
    } else {
        lemma_after_adds_is_concat(s.push(added[0]), added.skip(1));
        assert(s.push(added[0]) + added.skip(1) =~= s + added);
    }
}

/// What each drain of a run hands out, in the buffer's model: every drain
/// leaves the buffer empty, so the drain closing round `i` — with `rounds[i]`
/// the entries appended since the previous drain — returns the buffer grown
/// from empty by exactly those appends.
pub open spec fn drained_batches(rounds: Seq<Seq<EntryModel>>) -> Seq<Seq<EntryModel>> {
    rounds.map_values(|r: Seq<EntryModel>| after_adds(Seq::<EntryModel>::empty(), r))
}

/// Atomic drain: over any run of drains, the drained batches strung together
/// are exactly the appended entries strung together — every appended entry
/// is drained exactly once, none is lost, none is handed out twice, and none
/// changes place.
pub proof fn lemma_atomic_drain(rounds: Seq<Seq<EntryModel>>)
    ensures
        drained_batches(rounds).flatten() == rounds.flatten(),
{
    assert forall|i: int| 0 <= i < rounds.len() implies #[trigger] drained_batches(
        rounds,
    )[i] == rounds[i] by {
        lemma_after_adds_is_concat(Seq::<EntryModel>::empty(), rounds[i]);
        assert(Seq::<EntryModel>::empty() + rounds[i] =~= rounds[i]);
    }
    assert(drained_batches(rounds) =~= rounds);
}

/// The raw lock that `parking_lot` builds its reader-writer lock on.
#[verifier::external_type_specification]
#[verifier::external_body]
pub struct ExRawRwLock(parking_lot::RawRwLock);

/// `lock_api`'s reader-writer lock, the type behind `parking_lot::RwLock`.
#[verifier::external_type_specification]
#[verifier::external_body]
#[verifier::reject_recursive_types(R)]
#[verifier::reject_recursive_types(T)]
pub struct ExRwLock<R, T: ?Sized>(parking_lot::lock_api::RwLock<R, T>);

/// The pending-call buffer as producers and the drainer share it: one
/// [`PendingCallStore`] behind a reader-writer lock, reachable through as
/// many handles as there are producers.
///
/// The lock makes each append and each drain a critical section, so a drain
/// is atomic with respect to concurrent appends; what each operation does to
/// the buffer itself is the verified [`PendingCallStore`] method it runs
/// under the lock.
pub struct SharedStore {
    inner: Arc<parking_lot::RwLock<PendingCallStore>>,
}

/// Relies on `parking_lot::RwLock::new`: a fresh, unlocked lock holding the
/// given buffer.
#[verifier::external_body]
fn new_lock(store: PendingCallStore) -> parking_lot::RwLock<PendingCallStore> {
    parking_lot::RwLock::new(store)
}

impl SharedStore {
    /// A shared handle around a buffer no one else holds yet.
    pub(crate) fn new(store: PendingCallStore) -> SharedStore {
        SharedStore { inner: Arc::new(new_lock(store)) }
    }

    /// Relies on `parking_lot::RwLock::write` for exclusive access while the
    /// append runs; the append itself is the verified
    /// [`PendingCallStore::add`].
    #[verifier::external_body]
    pub(crate) fn add(&self, entry: CallEntry) {
        self.inner.write().add(entry);
    }

    /// Relies on `parking_lot::RwLock::write` for exclusive access while the
    /// drain runs; the drain itself is the verified
    /// [`PendingCallStore::drain_all`], so under the lock no concurrent
    /// append is lost and no entry is handed out twice.
    #[verifier::external_body]
    pub(crate) fn drain_all(&self) -> Vec<CallEntry> {
        self.inner.write().drain_all()
    }
}

impl Clone for SharedStore {
    /// Relies on `Arc::clone`: the new handle shares the same lock and the
    /// same buffer.
    #[verifier::external_body]
    fn clone(&self) -> SharedStore {
        SharedStore { inner: Arc::clone(&self.inner) }
    }
}

} // verus!
