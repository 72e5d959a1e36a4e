//! Host metrics snapshots: the logic that turns raw readings of a machine's
//! state into one complete, unit-normalised record.

pub mod labels;
pub mod probes;
pub mod snapshot;
pub mod timestamp;
pub mod units;
