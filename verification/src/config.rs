//! The fixed settings of the agent, in one place.
use vstd::prelude::*;

verus! {

/// The seconds between two polls of the sensor, whatever the last poll
/// came to.
pub const POLL_INTERVAL_SECS: u64 = 15;

/// The seconds between two retry cycles over the pending readings.
pub const SYNC_INTERVAL_SECS: u64 = 3_600;

/// The number of readings that may wait between ingestion and processing;
/// with that many waiting, ingestion stands still.
pub const CHANNEL_CAPACITY: usize = 32;

} // verus!
