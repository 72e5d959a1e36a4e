//! Unit conversions of the snapshot: megabytes for memory and disk, mebibytes
//! for network counters, whole hours for uptime.

use vstd::prelude::*;

verus! {

/// Divisor that turns memory and disk byte counts into the reported megabytes.
/// It is neither 10^6 nor 2^20: the reported figures are defined by this value.
pub const MEGABYTE: u64 = 1_000_024;

/// Divisor that turns network byte counters into the reported megabytes (2^20).
pub const MEBIBYTE: u64 = 1_048_576;

pub const SECONDS_PER_HOUR: u64 = 3600;

/// Memory or disk bytes in reported megabytes, rounded down.
pub fn bytes_to_megabytes(bytes: u64) -> (r: u64)
    ensures
        r == bytes / 1_000_024,
{
    bytes / MEGABYTE
}

/// Network bytes in reported megabytes, rounded down.
pub fn bytes_to_mebibytes(bytes: u64) -> (r: u64)
    ensures
        r == bytes / 1_048_576,
{
    bytes / MEBIBYTE
}

/// Whole hours in a number of seconds.
pub fn seconds_to_hours(secs: u64) -> (r: u64)
    ensures
        r == secs / 3600,
{
    secs / SECONDS_PER_HOUR
}

/// Used memory as an exact fraction of total memory: the reported percentage
/// is `100 * numerator / denominator`. The denominator is never zero.
#[derive(Clone, Copy, Debug, PartialEq, Eq, Structural)]
pub struct Share {
    pub numerator: u64,
    pub denominator: u64,
}

impl Share {
    pub open spec fn wf(self) -> bool {
        self.denominator > 0
    }
}

/// The share of `used` in `total`. A total of zero gives the share 0/1 rather
/// than a division by zero.
pub fn memory_share(used: u64, total: u64) -> (r: Share)
    ensures
        r.wf(),
        total == 0 ==> r == (Share { numerator: 0, denominator: 1 }),
        total > 0 ==> r == (Share { numerator: used, denominator: total }),
{
    if total == 0 {
        Share { numerator: 0, denominator: 1 }
    } else {
        Share { numerator: used, denominator: total }
    }
}

} // verus!
