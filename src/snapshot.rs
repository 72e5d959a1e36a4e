//! The snapshot aggregator: one complete record built from the raw readings of
//! every probe, with units normalised and each unavailable value replaced by
//! its fallback.
//!
//! Sensor readings (CPU load, temperatures) are of a type `R` chosen by the
//! caller; the aggregator only selects among them.

use vstd::prelude::*;
use crate::labels::{or_unknown, os_label, text_or_unknown, unknown};
use crate::probes::{
    availables, container_count, ContainerListing, containers_of, disk_usage, last_present, lemma_last_present_none, lemma_total_nonneg, last_reading,
    sum_counters, total, totals, used_of, Volume,
};
use crate::timestamp::{last_update, last_update_fits, MarkerTime};
use crate::units::{bytes_to_mebibytes, bytes_to_megabytes, memory_share, seconds_to_hours, Share};

verus! {

/// What the probes read, before any reduction or unit conversion.
pub struct Readings<R> {
    pub host: Option<String>,
    pub os_name: Option<String>,
    pub os_version: Option<String>,
    /// Bytes.
    pub total_memory: u64,
    /// Bytes.
    pub used_memory: u64,
    /// Aggregate utilisation over all cores, in percent.
    pub cpu_usage: R,
    /// One entry per sensor, `None` for a sensor without a reading.
    pub temperatures: Vec<Option<R>>,
    /// Bytes received since boot, one counter per network interface.
    pub received: Vec<u64>,
    /// Bytes transmitted since boot, one counter per network interface.
    pub transmitted: Vec<u64>,
    pub volumes: Vec<Volume>,
    pub uptime_secs: u64,
    /// The container listing; `None` when the query could not be run.
    pub containers: Option<ContainerListing>,
    pub primary_marker: Option<MarkerTime>,
    pub secondary_marker: Option<MarkerTime>,
}

/// One point-in-time record of the host. Memory and disk are in megabytes of
/// 1,000,024 bytes, network traffic in megabytes of 1,048,576 bytes.
pub struct Snapshot<R> {
    pub host: String,
    pub os: String,
    pub total_memory: u64,
    pub used_memory: u64,
    /// Used memory as a share of total memory.
    pub mempercentage: Share,
    pub cpu_usage: R,
    pub temp: R,
    pub received: u64,
    pub transmitted: u64,
    pub total_disk: u64,
    pub used_disk: u64,
    pub free_disk: u64,
    pub uptime_hours: u64,
    pub docker_containers: u32,
    pub last_update: String,
}

/// Reported network megabytes of a set of counters; 0 when their sum does not
/// fit in a `u64`.
pub open spec fn traffic(counters: Seq<u64>) -> int {
    if total(counters) <= u64::MAX {
        total(counters) / 1_048_576
    } else {
        0
    }
}

/// True when the disk sums fit in a `u64`.
pub open spec fn disk_known(v: Seq<Volume>) -> bool {
    total(totals(v)) <= u64::MAX && total(availables(v)) <= u64::MAX
}

/// Every field of `s` but the last-update text, as the readings determine it.
pub open spec fn summarises<R>(s: Snapshot<R>, r: Readings<R>, no_reading: R) -> bool {
    let disk_total = total(totals(r.volumes@));
    let disk_free = total(availables(r.volumes@));
    &&& s.host@ == text_or_unknown(r.host)
    &&& s.os@ == text_or_unknown(r.os_name) + " "@ + text_or_unknown(r.os_version)
    &&& s.total_memory == r.total_memory / 1_000_024
    &&& s.used_memory == r.used_memory / 1_000_024
    &&& s.mempercentage.wf()
    &&& (r.total_memory == 0 ==> s.mempercentage == Share { numerator: 0, denominator: 1 })
    &&& (r.total_memory > 0 ==> s.mempercentage == Share {
        numerator: r.used_memory,
        denominator: r.total_memory,
    })
    &&& s.cpu_usage == r.cpu_usage
    &&& s.temp == last_present(r.temperatures@, no_reading)
    &&& s.received == traffic(r.received@)
    &&& s.transmitted == traffic(r.transmitted@)
    &&& (disk_known(r.volumes@) ==> {
        &&& s.total_disk == disk_total / 1_000_024
        &&& s.free_disk == disk_free / 1_000_024
        &&& s.used_disk == used_of(disk_total, disk_free) / 1_000_024
    })
    &&& (!disk_known(r.volumes@) ==> s.total_disk == 0 && s.free_disk == 0 && s.used_disk == 0)
    &&& s.uptime_hours == r.uptime_secs / 3600
    &&& s.docker_containers == containers_of(r.containers)
}

fn traffic_of(counters: &Vec<u64>) -> (r: u64)
    ensures
        r == traffic(counters@),
{
    proof {
        lemma_total_nonneg(counters@);
    }
    match sum_counters(counters) {
        Some(b) => bytes_to_mebibytes(b),
        None => 0,
    }
}

/// Builds the snapshot from the readings and an already chosen last-update
/// text. `no_reading` is the temperature reported when no sensor has one.
pub fn assemble_snapshot<R: Copy>(readings: Readings<R>, no_reading: R, last_update: String) -> (s:
    Snapshot<R>)
    ensures
        summarises(s, readings, no_reading),
        s.last_update == last_update,
{
    let ghost r = readings;
    let Readings {
        host,
        os_name,
        os_version,
        total_memory,
        used_memory,
        cpu_usage,
        temperatures,
        received,
        transmitted,
        volumes,
        uptime_secs,
        containers,
        primary_marker: _,
        secondary_marker: _,
    } = readings;
    let (total_disk, used_disk, free_disk) = match disk_usage(&volumes) {
        Some(u) => (
            bytes_to_megabytes(u.total),
            bytes_to_megabytes(u.used),
            bytes_to_megabytes(u.free),
        ),
        None => (0, 0, 0),
    };
    let docker_containers = container_count(&containers);
    let s = Snapshot {
        host: or_unknown(host),
        os: os_label(os_name, os_version),
        total_memory: bytes_to_megabytes(total_memory),
        used_memory: bytes_to_megabytes(used_memory),
        mempercentage: memory_share(used_memory, total_memory),
        cpu_usage,
        temp: last_reading(&temperatures, no_reading),
        received: traffic_of(&received),
        transmitted: traffic_of(&transmitted),
        total_disk,
        used_disk,
        free_disk,
        uptime_hours: seconds_to_hours(uptime_secs),
        docker_containers,
        last_update,
    };
    assert(summarises(s, r, no_reading));
    s
}

/// Builds the snapshot of a set of readings. Every field is filled: a value
/// that could not be had is replaced by its fallback ("Unknown", 0, or
/// `no_reading` for the temperature). The last-update text is a local time to
/// the minute when either marker's time can be written, else "Unknown".
pub fn build_snapshot<R: Copy>(readings: Readings<R>, no_reading: R) -> (s: Snapshot<R>)
    ensures
        summarises(s, readings, no_reading),
        last_update_fits(readings.primary_marker, readings.secondary_marker, s.last_update@),
{
    let text = last_update(readings.primary_marker, readings.secondary_marker);
    assemble_snapshot(readings, no_reading, text)
}

/// A snapshot holds no missing value: a host name or an operating-system
/// name or version that cannot be had reads "Unknown", and the
/// operating-system label is never empty.
pub proof fn lemma_text_fields_filled<R>(s: Snapshot<R>, r: Readings<R>, no_reading: R)
    requires
        summarises(s, r, no_reading),
    ensures
        r.host is None ==> s.host@ == unknown(),
        r.os_name is None ==> s.os@.take(7) == unknown(),
        s.os@.len() > 0,
{
    reveal_strlit("Unknown");
    reveal_strlit(" ");
    assert(s.os@.len() >= 1);
    if r.os_name is None {
        assert(s.os@.take(7) =~= unknown());
    }
}

/// A total memory of zero gives a memory share of zero, with no division.
pub proof fn lemma_zero_total_memory<R>(s: Snapshot<R>, r: Readings<R>, no_reading: R)
    requires
        summarises(s, r, no_reading),
        r.total_memory == 0,
    ensures
        s.mempercentage.numerator == 0,
        s.mempercentage.denominator == 1,
{
}

/// When no sensor reports a temperature, the snapshot holds the fallback
/// reading.
pub proof fn lemma_no_temperature<R>(s: Snapshot<R>, r: Readings<R>, no_reading: R)
    requires
        summarises(s, r, no_reading),
        forall|i: int| 0 <= i < r.temperatures@.len() ==> (#[trigger] r.temperatures@[i]) is None,
    ensures
        s.temp == no_reading,
{
    lemma_last_present_none(r.temperatures@, no_reading);
}

/// When the container query fails, the snapshot counts no containers.
pub proof fn lemma_failed_container_query<R>(s: Snapshot<R>, r: Readings<R>, no_reading: R)
    requires
        summarises(s, r, no_reading),
        r.containers is None,
    ensures
        s.docker_containers == 0,
{
}

/// With no network interface, no traffic is reported.
pub proof fn lemma_no_interfaces<R>(s: Snapshot<R>, r: Readings<R>, no_reading: R)
    requires
        summarises(s, r, no_reading),
        r.received@.len() == 0,
        r.transmitted@.len() == 0,
    ensures
        s.received == 0,
        s.transmitted == 0,
{
}

/// Reported used disk space never exceeds reported total disk space.
pub proof fn lemma_used_disk_bounded<R>(s: Snapshot<R>, r: Readings<R>, no_reading: R)
    requires
        summarises(s, r, no_reading),
    ensures
        s.used_disk <= s.total_disk,
{
    lemma_total_nonneg(totals(r.volumes@));
    lemma_total_nonneg(availables(r.volumes@));
    let t = total(totals(r.volumes@));
    let f = total(availables(r.volumes@));
    if disk_known(r.volumes@) {
        assert(used_of(t, f) / 1_000_024 <= t / 1_000_024) by (nonlinear_arith)
            requires
                0 <= used_of(t, f) <= t,
        ;
    }
}

} // verus!
