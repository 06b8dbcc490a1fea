//! Immutable per-core CPU utilization snapshots.
//!
//! A snapshot is an ordered sequence of utilization values, one per logical
//! core, in stable core order. Each value is fixed-point, in hundredths of a
//! percent, and lies in `0 ..= MAX_CENTI_PERCENT` (`0.00%` to `100.00%`).
//! A snapshot is immutable once produced: the store replaces it wholesale,
//! never mutates it in place.

use vstd::prelude::*;

verus! {

/// Largest representable utilization value: 100.00%, in hundredths of a percent.
pub const MAX_CENTI_PERCENT: u32 = 10000;

/// A raw reading is clamped into the plausible utilization range.
pub open spec fn clamped(v: u32) -> u32 {
    if v <= MAX_CENTI_PERCENT {
        v
    } else {
        MAX_CENTI_PERCENT
    }
}

/// Every value of the sequence lies in the plausible utilization range.
pub open spec fn all_in_range(s: Seq<u32>) -> bool {
    forall|i: int| 0 <= i < s.len() ==> s[i] <= MAX_CENTI_PERCENT
}

/// An ordered sequence of per-core utilization values, index = core index.
pub struct CpuSnapshot {
    values: Vec<u32>,
}

impl View for CpuSnapshot {
    type V = Seq<u32>;

    closed spec fn view(&self) -> Seq<u32> {
        self.values@
    }
}

impl CpuSnapshot {
    /// Every value lies in the plausible utilization range.
    pub open spec fn wf(&self) -> bool {
        all_in_range(self@)
    }

    /// The snapshot held before any sample has been produced: zero cores.
    pub fn empty() -> (s: Self)
        ensures
            s@ =~= Seq::<u32>::empty(),
            s.wf(),
    {
        CpuSnapshot { values: Vec::new() }
    }

    /// Builds a snapshot from raw per-core readings, clamping each into the
    /// plausible range. Keeps the length and the core order.
    pub fn from_readings(readings: &Vec<u32>) -> (s: Self)
        ensures
            s@.len() == readings@.len(),
            forall|i: int| 0 <= i < readings@.len() ==> s@[i] == clamped(readings@[i]),
            s.wf(),
    {
        let mut values: Vec<u32> = Vec::new();
        let n = readings.len();
        let mut i: usize = 0;
        while i < n
            invariant
                n == readings@.len(),
                i <= n,
                values@.len() == i,
                forall|j: int| 0 <= j < i ==> values@[j] == clamped(readings@[j]),
            decreases n - i,
        {
            let r = readings[i];
            if r <= MAX_CENTI_PERCENT {
                values.push(r);
            } else {
                values.push(MAX_CENTI_PERCENT);
            }
            i = i + 1;
        }
        CpuSnapshot { values }
    }

    /// Number of cores covered by this snapshot.
    pub fn core_count(&self) -> (n: usize)
        ensures
            n == self@.len(),
    {
        self.values.len()
    }

    /// The utilization value of core `i`.
    pub fn value_at(&self, i: usize) -> (v: u32)
        requires
            i < self@.len(),
        ensures
            v == self@[i as int],
    {
        self.values[i]
    }

    /// An independent copy with exactly the same values.
    pub fn duplicate(&self) -> (s: Self)
        ensures
            s@ == self@,
    {
        let mut values: Vec<u32> = Vec::new();
        let n = self.values.len();
        let mut i: usize = 0;
        while i < n
            invariant
                n == self@.len(),
                i <= n,
                values@.len() == i,
                forall|j: int| 0 <= j < i ==> values@[j] == self@[j],
            decreases n - i,
        {
            values.push(self.values[i]);
            i = i + 1;
        }
        proof {
            assert(values@ =~= self@);
        }
        CpuSnapshot { values }
    }
}

} // verus!
