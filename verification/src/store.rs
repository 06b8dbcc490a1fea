//! The shared snapshot store: holds exactly one current snapshot.
//!
//! Single designated writer (the sampler), any number of readers (query
//! handlers and stream sessions). The store is created empty (zero cores)
//! at startup; `set` replaces the held snapshot wholesale, never mutating it
//! in place, and `get` hands out a complete, self-consistent copy. The
//! embedding wraps one `SharedState` in its mutual-exclusion handle and
//! passes it to every component; the semantics of the two operations below
//! are what the critical sections protect.

use vstd::prelude::*;

use crate::snapshot::CpuSnapshot;

verus! {

/// Holds the current snapshot; the only shared mutable state of the system.
pub struct SharedState {
    current: CpuSnapshot,
}

impl View for SharedState {
    type V = Seq<u32>;

    closed spec fn view(&self) -> Seq<u32> {
        self.current@
    }
}

impl SharedState {
    /// Every value of the held snapshot lies in the plausible range.
    pub open spec fn wf(&self) -> bool {
        crate::snapshot::all_in_range(self@)
    }

    /// A fresh store holds the empty snapshot: no sample has been produced yet.
    pub fn new() -> (s: Self)
        ensures
            s@ =~= Seq::<u32>::empty(),
            s.wf(),
    {
        SharedState { current: CpuSnapshot::empty() }
    }

    /// Replaces the held snapshot wholesale. Always succeeds.
    pub fn set(&mut self, snapshot: CpuSnapshot)
        requires
            snapshot.wf(),
        ensures
            final(self)@ == snapshot@,
            final(self).wf(),
    {
        self.current = snapshot;
    }

    /// Returns a copy of the currently held snapshot. Always succeeds; the
    /// copy cannot change after return, whatever the writer does next.
    pub fn get(&self) -> (r: CpuSnapshot)
        ensures
            r@ == self@,
    {
        self.current.duplicate()
    }
}

/// Read-your-write: a `get` right after a `set(s)`, with no writer activity
/// in between, observes exactly `s`. The two premises are precisely what
/// `set` and `get` ensure, so every such pair of calls satisfies them.
pub proof fn law_read_your_write(s: CpuSnapshot, post: SharedState, r: CpuSnapshot)
    requires
        post@ == s@,
        r@ == post@,
    ensures
        r@ == s@,
{
}

/// Snapshot atomicity: after the store was switched from `prev` to `next`,
/// an observed copy agrees with `next` at every index — its length and
/// values are never a mix of `prev` and `next`. The premises are what `set`
/// and `get` ensure.
pub proof fn law_no_torn_read(
    prev: Seq<u32>,
    next: Seq<u32>,
    post: SharedState,
    observed: CpuSnapshot,
)
    requires
        post@ == next,
        observed@ == post@,
    ensures
        observed@.len() == next.len(),
        forall|i: int| 0 <= i < next.len() ==> observed@[i] == next[i],
        next != prev ==> observed@ != prev,
{
}

} // verus!
