//! Per-core CPU utilization monitoring: a sampler produces immutable
//! snapshots of per-core utilization, a shared store publishes the latest
//! snapshot to concurrent readers, and query/stream services hand it to
//! clients as a JSON array.
//!
//! Utilization is carried as a fixed-point value in hundredths of a percent
//! (`1250` means `12.50%`), so that snapshots and the wire format can be
//! stated and verified exactly.

pub mod query;
pub mod sampler;
pub mod snapshot;
pub mod store;
pub mod stream;
pub mod wire;
