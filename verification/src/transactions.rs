//! The registry of cancellable transactions.
//!
//! An in-flight operation is known by an identifier and owns a
//! cancellation handle.  The registry maps the one to the other for as long
//! as the operation may still be cancelled.  Removing an entry is the
//! single atomic step in which the race between cancellation and natural
//! completion is decided: whoever removes the entry has won.

use std::collections::HashMap;
use vstd::prelude::*;
use vstd::std_specs::hash::*;

verus! {

broadcast use group_hash_axioms;

/// How a transaction ended.
#[derive(Clone, Copy, Debug, PartialEq, Eq, Structural)]
pub enum Terminal {
    /// The operation ran to its natural end and reports its own result.
    Completed,
    /// The operation was cancelled first and reports that instead.
    Cancelled,
}

/// The registry after `cancel(id)`, and the handle that is to be signalled.
pub open spec fn cancel_model<H>(active: Map<usize, H>, id: usize) -> (Map<usize, H>, Option<H>) {
    if active.contains_key(id) {
        (active.remove(id), Some(active[id]))
    } else {
        (active, None)
    }
}

/// The registry after `complete(id)`, and how the transaction ended.
pub open spec fn complete_model<H>(active: Map<usize, H>, id: usize) -> (Map<usize, H>, Terminal) {
    if active.contains_key(id) {
        (active.remove(id), Terminal::Completed)
    } else {
        (active, Terminal::Cancelled)
    }
}

/// The registry after `register(id, handle)`: an identifier that is in use
/// keeps the handle it has.
pub open spec fn register_model<H>(active: Map<usize, H>, id: usize, handle: H) -> Map<usize, H> {
    if active.contains_key(id) {
        active
    } else {
        active.insert(id, handle)
    }
}

/// The least identifier from `from` on that is below `usize::MAX` and not
/// in use, if there is one.
pub open spec fn first_free<H>(active: Map<usize, H>, from: usize) -> Option<usize>
    decreases usize::MAX - from,
{
    if from >= usize::MAX {
        None
    } else if !active.contains_key(from) {
        Some(from)
    } else {
        first_free(active, (from + 1) as usize)
    }
}

/// Transactions in flight, each with the handle that cancels it.
pub struct Transactions<H> {
    next: usize,
    active: HashMap<usize, H>,
}

impl<H> View for Transactions<H> {
    type V = Map<usize, H>;

    closed spec fn view(&self) -> Map<usize, H> {
        self.active@
    }
}

impl<H> Transactions<H> {
    /// The identifier from which `begin` starts to look for a free one.
    pub closed spec fn cursor(&self) -> usize {
        self.next
    }

    /// An empty registry.
    pub fn new() -> (registry: Self)
        ensures
            registry@ == Map::<usize, H>::empty(),
            registry.cursor() == 0,
    {
        Transactions { next: 0, active: HashMap::new() }
    }

    /// Whether the transaction `id` is in flight: registered, and neither
    /// cancelled nor completed since.
    pub fn contains(&self, id: usize) -> (in_flight: bool)
        ensures
            in_flight == self@.contains_key(id),
    {
        self.active.contains_key(&id)
    }

    /// Issues an identifier for a new transaction: the least one from the
    /// cursor on that no transaction in flight uses.  `None` when every
    /// identifier from the cursor on is taken.  Nothing is registered yet.
    pub fn begin(&mut self) -> (id: Option<usize>)
        ensures
            id == first_free(old(self)@, old(self).cursor()),
            final(self)@ == old(self)@,
            match id {
                Some(i) => final(self).cursor() == i + 1,
                None => final(self).cursor() == usize::MAX,
            },
    {
        while self.next < usize::MAX && self.active.contains_key(&self.next)
            invariant
                self.active@ == old(self).active@,
                old(self).next <= self.next,
                first_free(old(self)@, old(self).cursor()) == first_free(self@, self.next),
            decreases usize::MAX - self.next,
        {
            self.next = self.next + 1;
        }
        if self.next < usize::MAX {
            let id = self.next;
            self.next = self.next + 1;
            Some(id)
        } else {
            None
        }
    }

    /// Enters a transaction under `id`.  An identifier that is in use is
    /// refused and the handle is handed back, so no entry is ever lost.
    pub fn register(&mut self, id: usize, handle: H) -> (refused: Result<(), H>)
        ensures
            final(self)@ == register_model(old(self)@, id, handle),
            final(self).cursor() == old(self).cursor(),
            refused == if old(self)@.contains_key(id) {
                Err::<(), H>(handle)
            } else {
                Ok::<(), H>(())
            },
    {
        if self.active.contains_key(&id) {
            Err(handle)
        } else {
            self.active.insert(id, handle);
            Ok(())
        }
    }

    /// Cancels the transaction `id`: removes it and returns its handle,
    /// which the caller signals.  An identifier that is not registered
    /// changes nothing and returns nothing.
    pub fn cancel(&mut self, id: usize) -> (handle: Option<H>)
        ensures
            (final(self)@, handle) == cancel_model(old(self)@, id),
            !old(self)@.contains_key(id) ==> handle is None && final(self)@ == old(self)@,
            final(self).cursor() == old(self).cursor(),
    {
        self.active.remove(&id)
    }

    /// Ends the transaction `id` at its natural completion.  The operation
    /// reports its own result when this returns `Completed`, and reports
    /// that it was cancelled otherwise.
    pub fn complete(&mut self, id: usize) -> (end: Terminal)
        ensures
            (final(self)@, end) == complete_model(old(self)@, id),
            final(self).cursor() == old(self).cursor(),
    {
        match self.active.remove(&id) {
            Some(_) => Terminal::Completed,
            None => Terminal::Cancelled,
        }
    }
}

/// Cancellation and natural completion may come for a transaction in
/// either order, and in either order the transaction ends once.  If the
/// cancellation is first, it takes the handle to signal and the completion
/// finds the transaction cancelled.  If the completion is first, it finds
/// the transaction completed and the cancellation finds nothing to signal.
/// The registry is the same after both.
pub proof fn cancel_races_completion<H>(active: Map<usize, H>, id: usize)
    requires
        active.contains_key(id),
    ensures
        cancel_model(active, id).1 == Some(active[id]),
        complete_model(cancel_model(active, id).0, id) == (active.remove(id), Terminal::Cancelled),
        complete_model(active, id).1 == Terminal::Completed,
        cancel_model(complete_model(active, id).0, id) == (active.remove(id), None::<H>),
{
    assert(active.remove(id).remove(id) == active.remove(id));
}

/// A transaction that has ended stays ended: cancelling it again signals
/// nothing, completing it again reports nothing new, and neither changes
/// the registry.
pub proof fn ended_stays_ended<H>(active: Map<usize, H>, id: usize)
    requires
        !active.contains_key(id),
    ensures
        cancel_model(active, id) == (active, None::<H>),
        complete_model(active, id) == (active, Terminal::Cancelled),
{
}

/// An identifier that `begin` issues is free, so the registration that
/// follows is not refused, and the next identifier issued is a greater one.
pub proof fn issued_is_free<H>(active: Map<usize, H>, from: usize, handle: H)
    requires
        first_free(active, from) is Some,
    ensures
        ({
            let id = first_free(active, from)->0;
            &&& from <= id < usize::MAX
            &&& !active.contains_key(id)
            &&& register_model(active, id, handle) == active.insert(id, handle)
            &&& first_free(register_model(active, id, handle), (id + 1) as usize) matches Some(next)
                ==> id < next
        }),
    decreases usize::MAX - from,
{
    if from < usize::MAX && active.contains_key(from) {
        issued_is_free(active, (from + 1) as usize, handle);
    }
    let id = first_free(active, from)->0;
    first_free_is_at_least(active.insert(id, handle), (id + 1) as usize);
}

/// What `first_free` finds is not below where it starts.
pub proof fn first_free_is_at_least<H>(active: Map<usize, H>, from: usize)
    ensures
        first_free(active, from) matches Some(id) ==> from <= id,
    decreases usize::MAX - from,
{
    if from < usize::MAX && active.contains_key(from) {
        first_free_is_at_least(active, (from + 1) as usize);
    }
}

} // verus!
