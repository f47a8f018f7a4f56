use vstd::prelude::*;

verus! {

/// Seconds between two sampling rounds.
pub const SAMPLE_INTERVAL_SECONDS: u64 = 20;

/// The number of samples that the read endpoint returns at most.
pub const HISTORY_LIMIT: usize = 50;

/// The TCP port that the read endpoint listens on.
pub const LISTEN_PORT: u16 = 8080;

} // verus!
