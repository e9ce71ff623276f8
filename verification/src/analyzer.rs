//! The addon size analyzer: one long-running analysis at a time.
//!
//! The analyzer is a slot.  `compute` takes the slot for a new run and
//! refuses while it is taken; `free` empties it whatever its state.  The
//! slot keeps the cancellation handle of its run, so a run can be told to
//! stop when the slot is freed under it.

use vstd::prelude::*;

verus! {

/// The slot after `compute(cancel)`: a run in progress is left as it is.
pub open spec fn compute_model<H>(slot: Option<H>, cancel: H) -> Option<H> {
    match slot {
        Some(_) => slot,
        None => Some(cancel),
    }
}

/// The state of the one analysis the process can run.
pub struct AddonSizeAnalyzer<H> {
    running: bool,
    cancel: Option<H>,
}

impl<H> View for AddonSizeAnalyzer<H> {
    type V = Option<H>;

    /// The handle of the run in progress, if there is one.
    closed spec fn view(&self) -> Option<H> {
        self.cancel
    }
}

impl<H> AddonSizeAnalyzer<H> {
    /// A run in progress has its handle, and only a run in progress has one.
    #[verifier::type_invariant]
    closed spec fn live(&self) -> bool {
        self.running <==> self.cancel is Some
    }

    /// An analyzer with nothing running.
    pub fn new() -> (analyzer: Self)
        ensures
            analyzer@ is None,
    {
        AddonSizeAnalyzer { running: false, cancel: None }
    }

    /// Whether an analysis is in progress.
    pub fn is_running(&self) -> (running: bool)
        ensures
            running == (self@ is Some),
    {
        proof {
            use_type_invariant(self);
        }
        self.running
    }

    /// Takes the slot for a new run that `cancel` will stop.  While a run
    /// is in progress the call is refused: the handle comes back and the
    /// run in progress is not touched.
    pub fn compute(&mut self, cancel: H) -> (refused: Result<(), H>)
        ensures
            final(self)@ == compute_model(old(self)@, cancel),
            old(self)@ is Some ==> final(self)@ == old(self)@,
            refused == if old(self)@ is Some {
                Err::<(), H>(cancel)
            } else {
                Ok::<(), H>(())
            },
    {
        proof {
            use_type_invariant(&*self);
        }
        if self.running {
            Err(cancel)
        } else {
            *self = AddonSizeAnalyzer { running: true, cancel: Some(cancel) };
            Ok(())
        }
    }

    /// Empties the slot.  The handle of the run that was in progress is
    /// returned for the caller to signal; with nothing running there is
    /// nothing to signal and nothing changes.
    pub fn free(&mut self) -> (cancel: Option<H>)
        ensures
            final(self)@ is None,
            cancel == old(self)@,
    {
        let mut idle = AddonSizeAnalyzer { running: false, cancel: None };
        std::mem::swap(self, &mut idle);
        idle.cancel
    }
}

/// Of two runs asked for with nothing freed between them, only the first
/// takes the slot: the second leaves the slot to the first, whatever the
/// slot held before.
pub proof fn second_compute_changes_nothing<H>(slot: Option<H>, first: H, second: H)
    ensures
        compute_model(slot, first) is Some,
        compute_model(compute_model(slot, first), second) == compute_model(slot, first),
{
}

/// Once the slot has been freed the next run takes it, whatever the slot
/// held before it was freed.
pub proof fn compute_after_free_succeeds<H>(cancel: H)
    ensures
        compute_model(None::<H>, cancel) == Some(cancel),
{
}

} // verus!
