//! Verified core of a sidecar process supervisor: port resolution, liveness
//! polling policy, bounded log capture, a write-once readiness slot, and the
//! decision logic that keeps an externally installed binary version-synced.
use vstd::prelude::*;

pub mod cli_install;
pub mod display_backend;
pub mod launch;
pub mod logbuf;
pub mod ports;
pub mod readiness;
pub mod supervisor;
pub mod version_sync;
pub mod window_customizer;

verus! {

/// Poll interval of the readiness loop, in milliseconds.
pub const POLL_INTERVAL_MS: u64 = 10;

/// Wall-clock bound on the readiness polling loop, in milliseconds.
pub const READY_TIMEOUT_MS: u64 = 7000;

/// Capacity of the log ring buffer.
pub const MAX_LOG_ENTRIES: usize = 200;

} // verus!
