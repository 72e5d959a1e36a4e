use hoststats::probes::{ContainerListing, Volume};
use hoststats::timestamp::MarkerTime;
use hoststats::snapshot::{assemble_snapshot, build_snapshot, Readings};
use hoststats::units::Share;

fn quiet_host() -> Readings<f32> {
    Readings {
        host: Some("node1".to_string()),
        os_name: Some("Debian".to_string()),
        os_version: Some("12".to_string()),
        total_memory: 16_000_000_000,
        used_memory: 8_000_000_000,
        cpu_usage: 12.5,
        temperatures: vec![],
        received: vec![],
        transmitted: vec![],
        volumes: vec![],
        uptime_secs: 0,
        containers: None,
        primary_marker: None,
        secondary_marker: None,
    }
}

fn percent(s: Share) -> f32 {
    s.numerator as f32 / s.denominator as f32 * 100.0
}

#[test]
fn memory_figures_of_sixteen_gigabytes() {
    let s = build_snapshot(quiet_host(), 0.0);
    assert_eq!(s.total_memory, 15_999);
    assert_eq!(s.used_memory, 7_999);
    assert_eq!(s.mempercentage, Share { numerator: 8_000_000_000, denominator: 16_000_000_000 });
    assert!((percent(s.mempercentage) - 50.0).abs() < 1e-4);
}

#[test]
fn zero_total_memory_gives_zero_percent() {
    let mut r = quiet_host();
    r.total_memory = 0;
    r.used_memory = 123;
    let s = build_snapshot(r, 0.0);
    assert_eq!(s.mempercentage, Share { numerator: 0, denominator: 1 });
    assert_eq!(percent(s.mempercentage), 0.0);
    assert_eq!(s.total_memory, 0);
}

#[test]
fn no_network_interfaces_report_no_traffic() {
    let s = build_snapshot(quiet_host(), 0.0);
    assert_eq!(s.received, 0);
    assert_eq!(s.transmitted, 0);
}

#[test]
fn network_traffic_is_summed_over_interfaces() {
    let mut r = quiet_host();
    r.received = vec![1_048_576, 2 * 1_048_576 + 10];
    r.transmitted = vec![1_048_575];
    let s = build_snapshot(r, 0.0);
    assert_eq!(s.received, 3);
    assert_eq!(s.transmitted, 0);
}

#[test]
fn network_overflow_reports_zero() {
    let mut r = quiet_host();
    r.received = vec![u64::MAX, 1];
    let s = build_snapshot(r, 0.0);
    assert_eq!(s.received, 0);
}

#[test]
fn one_volume_disk_figures() {
    let mut r = quiet_host();
    r.volumes = vec![Volume { total: 100 * 1_000_024, available: 40 * 1_000_024 }];
    let s = build_snapshot(r, 0.0);
    assert_eq!(s.total_disk, 100);
    assert_eq!(s.free_disk, 40);
    assert_eq!(s.used_disk, 60);
    assert_eq!(s.used_disk, s.total_disk - s.free_disk);
}

#[test]
fn racing_disk_figures_do_not_go_negative() {
    let mut r = quiet_host();
    r.volumes = vec![Volume { total: 10 * 1_000_024, available: 11 * 1_000_024 }];
    let s = build_snapshot(r, 0.0);
    assert_eq!(s.total_disk, 10);
    assert_eq!(s.free_disk, 11);
    assert_eq!(s.used_disk, 0);
}

#[test]
fn temperature_defaults_without_sensors() {
    let s = build_snapshot(quiet_host(), 0.0);
    assert_eq!(s.temp, 0.0);
    let mut r = quiet_host();
    r.temperatures = vec![None, None];
    assert_eq!(build_snapshot(r, 0.0).temp, 0.0);
}

#[test]
fn temperature_is_last_reported_sensor() {
    let mut r = quiet_host();
    r.temperatures = vec![Some(80.0), Some(35.0), None];
    assert_eq!(build_snapshot(r, 0.0).temp, 35.0);
}

#[test]
fn identity_and_fallbacks() {
    let s = build_snapshot(quiet_host(), 0.0);
    assert_eq!(s.host, "node1");
    assert_eq!(s.os, "Debian 12");
    assert_eq!(s.cpu_usage, 12.5);
    assert_eq!(s.last_update, "Unknown");
    assert_eq!(s.docker_containers, 0);
    let mut r = quiet_host();
    r.host = None;
    r.os_name = None;
    r.os_version = None;
    let s = build_snapshot(r, 0.0);
    assert_eq!(s.host, "Unknown");
    assert_eq!(s.os, "Unknown Unknown");
}

#[test]
fn uptime_and_containers() {
    let mut r = quiet_host();
    r.uptime_secs = 3 * 3600 + 3599;
    r.containers = Some(ContainerListing { succeeded: true, output: b"aaa\nbbb\nccc\n".to_vec() });
    let s = build_snapshot(r, 0.0);
    assert_eq!(s.uptime_hours, 3);
    assert_eq!(s.docker_containers, 3);
}

#[test]
fn assembled_snapshot_keeps_given_update_text() {
    let s = assemble_snapshot(quiet_host(), 0.0, "2024-02-03 04:05".to_string());
    assert_eq!(s.last_update, "2024-02-03 04:05");
    assert_eq!(s.total_memory, 15_999);
}

#[test]
fn unreadable_container_listing_counts_none() {
    let mut r = quiet_host();
    r.containers = Some(ContainerListing { succeeded: true, output: vec![0xff, 0x0a] });
    assert_eq!(build_snapshot(r, 0.0).docker_containers, 0);
}

#[test]
fn marker_time_fills_last_update() {
    let mut r = quiet_host();
    r.secondary_marker = Some(MarkerTime { secs: 1_700_000_000, nanos: 0 });
    let s = build_snapshot(r, 0.0);
    assert!(s.last_update.starts_with("2023-11-1"));
    assert_eq!(s.last_update.as_bytes()[13], b':');
}
