//! The global error register: a single shared slot through which any
//! background task can report a fatal error to every holder of a
//! configuration handle. A set installs its error only into an empty
//! slot — the first writer wins — and only an explicit reset empties
//! the slot again.
use vstd::prelude::*;
use vstd::rwlock::RwLock;

use crate::error::Error;

verus! {

/// The slot's value after one set attempt: the first writer wins; a
/// slot that already holds an error keeps it unchanged.
pub open spec fn slot_after_set(cur: Option<Error>, e: Error) -> Option<Error> {
    if cur is None {
        Some(e)
    } else {
        cur
    }
}

/// The slot's value after a sequence of set attempts, applied in
/// order.
pub open spec fn slot_after_sets(cur: Option<Error>, es: Seq<Error>) -> Option<Error>
    decreases es.len(),
{
    if es.len() == 0 {
        cur
    } else {
        slot_after_sets(slot_after_set(cur, es[0]), es.drop_first())
    }
}

/// An occupied slot is never changed by set attempts: only a reset
/// empties it.
pub proof fn lemma_sets_keep_occupied(cur: Option<Error>, es: Seq<Error>)
    requires
        cur is Some,
    ensures
        slot_after_sets(cur, es) == cur,
    decreases es.len(),
{
    if es.len() > 0 {
        lemma_sets_keep_occupied(cur, es.drop_first());
    }
}

/// However many set attempts race for an empty slot, exactly one wins:
/// the slot then holds the first error in the order the attempts ran,
/// and every later attempt is a no-op. After a reset, a new set
/// installs the new error.
pub proof fn lemma_register_first_writer_wins(es: Seq<Error>, e2: Error)
    requires
        es.len() > 0,
    ensures
        slot_after_sets(None, es) == Some(es[0]),
        slot_after_set(None, e2) == Some(e2),
{
    lemma_sets_keep_occupied(Some(es[0]), es.drop_first());
}

/// Applies one set attempt to the slot's current value.
pub fn set_slot(cur: Option<Error>, e: Error) -> (r: Option<Error>)
    ensures
        r == slot_after_set(cur, e),
{
    match cur {
        None => Some(e),
        Some(old_e) => Some(old_e),
    }
}

/// A single-slot error register. Reads return a copy of the current
/// error, a set is first-writer-wins, and a reset unconditionally
/// empties the slot. The slot is guarded by a reader-writer lock, so
/// racing sets serialize and exactly one of them finds the slot empty.
pub struct ErrorRegister {
    slot: RwLock<Option<Error>, SlotPred>,
}

/// The slot's lock invariant: any value may sit in the slot.
pub struct SlotPred;

impl vstd::rwlock::RwLockPredicate<Option<Error>> for SlotPred {
    open spec fn inv(self, v: Option<Error>) -> bool {
        true
    }
}

impl ErrorRegister {
    /// An empty register.
    pub fn new() -> ErrorRegister {
        ErrorRegister { slot: RwLock::new(None, Ghost(SlotPred)) }
    }

    /// The current error, if one is installed.
    pub fn get(&self) -> Option<Error> {
        let handle = self.slot.acquire_read();
        let r = *handle.borrow();
        handle.release_read();
        r
    }

    /// Attempts to install `e`; a no-op if an error is already
    /// installed.
    pub fn set(&self, e: Error) {
        let (cur, handle) = self.slot.acquire_write();
        handle.release_write(set_slot(cur, e));
    }

    /// Empties the slot unconditionally.
    pub fn reset(&self) {
        let (_, handle) = self.slot.acquire_write();
        handle.release_write(None);
    }
}

} // verus!
