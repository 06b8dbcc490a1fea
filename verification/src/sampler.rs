//! The sampler: the single writer of the shared store.
//!
//! The platform refresh itself (reading the host's CPU counters) blocks and
//! returns machine-dependent readings, so the embedding performs it on a
//! dedicated blocking context and hands the raw per-core readings over as
//! plain fixed-point values. The sampler turns one round of readings into a
//! well-formed snapshot, publishes it, and decides how long to sleep before
//! the next round.

use vstd::prelude::*;

use crate::snapshot::{clamped, CpuSnapshot};
use crate::store::SharedState;

verus! {

/// Produces snapshots on a fixed cadence. Exactly one sampler runs per
/// process; it is the only writer of the store it is given.
pub struct Sampler {
    /// Configured pause between two sampling rounds, in milliseconds.
    pub configured_interval_ms: u64,
}

impl Sampler {
    pub fn new(configured_interval_ms: u64) -> (s: Self)
        ensures
            s.configured_interval_ms == configured_interval_ms,
    {
        Sampler { configured_interval_ms }
    }

    /// One sampling round after the platform refresh: builds a snapshot from
    /// the raw readings, one value per core in stable core order with each
    /// value clamped into the plausible range, and atomically replaces the
    /// store's content with it.
    pub fn publish_readings(&self, store: &mut SharedState, readings: &Vec<u32>)
        ensures
            final(store)@.len() == readings@.len(),
            forall|i: int| 0 <= i < readings@.len() ==> final(store)@[i] == clamped(readings@[i]),
            final(store).wf(),
    {
        let snapshot = CpuSnapshot::from_readings(readings);
        store.set(snapshot);
    }

    /// How long to pause before the next round: the platform's minimum safe
    /// refresh interval or the configured interval, whichever is larger, so
    /// the platform counters are never refreshed faster than is meaningful.
    pub fn sleep_interval_ms(&self, platform_min_ms: u64) -> (r: u64)
        ensures
            r == if self.configured_interval_ms >= platform_min_ms {
                self.configured_interval_ms
            } else {
                platform_min_ms
            },
            r >= platform_min_ms,
            r >= self.configured_interval_ms,
    {
        if self.configured_interval_ms >= platform_min_ms {
            self.configured_interval_ms
        } else {
            platform_min_ms
        }
    }
}

} // verus!
