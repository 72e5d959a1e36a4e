//! Local-time text of the package-index markers' modification times.

use vstd::prelude::*;
use crate::labels::{resolve_last_update, unknown};

verus! {

/// Modification time of a marker file: seconds and nanoseconds since the Unix
/// epoch (negative seconds before it).
#[derive(Clone, Copy, Debug, PartialEq, Eq, Structural)]
pub struct MarkerTime {
    pub secs: i64,
    pub nanos: u32,
}

/// First second of the year 1 (UTC), as seconds since the Unix epoch.
pub const EARLIEST_SECS: i64 = -62_135_596_800;

/// Last second of the year 9999 (UTC), as seconds since the Unix epoch.
pub const LATEST_SECS: i64 = 253_402_300_799;

/// Pattern of the last-update text: local date and time to the minute.
pub const UPDATE_PATTERN: &'static str = "%Y-%m-%d %H:%M";

/// Times that are written: from the year 1 to the year 9999, with the
/// nanoseconds below one second.
pub open spec fn representable(secs: i64, nanos: u32) -> bool {
    EARLIEST_SECS <= secs <= LATEST_SECS && nanos < 1_000_000_000
}

pub open spec fn marker_representable(marker: Option<MarkerTime>) -> bool {
    match marker {
        Some(m) => representable(m.secs, m.nanos),
        None => false,
    }
}

/// The shape of a time written to the minute: at least "YYYY-MM-DD HH:MM",
/// ending in a colon and the two minute digits.
pub open spec fn minute_shaped(t: Seq<char>) -> bool {
    t.len() >= 16 && t[t.len() - 3] == ':'
}

/// Relies on chrono's `DateTime::from_timestamp` (`Some` for every time in the
/// admitted range), `DateTime::with_timezone(&Local)` and `DateTime::format`
/// with the one admitted pattern, whose specifiers all exist, so `to_string`
/// does not fail. The digits depend on the machine's time zone; the shape does
/// not. chrono's local offset lookup panics only on a broken zone file.
#[verifier::external_body]
fn format_local(secs: i64, nanos: u32, pattern: &str) -> (r: Option<String>)
    requires
        representable(secs, nanos),
        pattern@ == "%Y-%m-%d %H:%M"@,
    ensures
        r is Some,
        r matches Some(t) ==> minute_shaped(t@),
{
    match chrono::DateTime::from_timestamp(secs, nanos) {
        Some(t) => Some(t.with_timezone(&chrono::Local).format(pattern).to_string()),
        None => None,
    }
}

/// The local-time text of a marker's time: present exactly when the marker
/// exists and its time is representable.
pub fn marker_text(marker: Option<MarkerTime>) -> (r: Option<String>)
    ensures
        r is Some <==> marker_representable(marker),
        r matches Some(t) ==> minute_shaped(t@),
{
    match marker {
        Some(m) => {
            if EARLIEST_SECS <= m.secs && m.secs <= LATEST_SECS && m.nanos < 1_000_000_000 {
                format_local(m.secs, m.nanos, UPDATE_PATTERN)
            } else {
                None
            }
        },
        None => None,
    }
}

/// The last-update text: the primary marker's time if it can be written,
/// else the secondary marker's, else "Unknown".
pub open spec fn last_update_fits(
    primary: Option<MarkerTime>,
    secondary: Option<MarkerTime>,
    r: Seq<char>,
) -> bool {
    if marker_representable(primary) || marker_representable(secondary) {
        minute_shaped(r)
    } else {
        r == unknown()
    }
}

/// The last-update text of the two markers. Which marker's time it holds
/// follows `labels::resolve_last_update`; its digits depend on the time zone.
pub fn last_update(primary: Option<MarkerTime>, secondary: Option<MarkerTime>) -> (r: String)
    ensures
        last_update_fits(primary, secondary, r@),
{
    let p = marker_text(primary);
    let s = marker_text(secondary);
    resolve_last_update(p, s)
}

} // verus!
