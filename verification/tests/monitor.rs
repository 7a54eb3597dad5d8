use kt_ui::metrics_format::{format_bytes, format_uptime};
use kt_ui::monitor::{
    activity_band, format_cores, format_load_subvalue, format_network_subvalue, format_network_title,
    format_root_disk_usage, latency_level, metric_value_row_class, root_disk, ActivityBand, DiskUsage, LatencyLevel,
};

#[test]
fn format_uptime_uses_days_after_24_hours() {
    assert_eq!(format_uptime(3600), "1h");
    assert_eq!(format_uptime(25 * 3600), "1d 1h");
}

#[test]
fn format_bytes_keeps_kilobyte_unit_below_one_megabyte() {
    assert_eq!(format_bytes(1536), "1.5 KB");
    assert_eq!(format_bytes(2 * 1024 * 1024), "2.0 MB");
}

#[test]
fn root_disk_metric_prefers_root_mount_and_degrades_when_missing() {
    let disks = vec![
        DiskUsage { mount: "/data".to_string(), used: 9, total: 10 },
        DiskUsage { mount: "/".to_string(), used: 40 * 1024 * 1024, total: 100 * 1024 * 1024 },
    ];
    assert_eq!(root_disk(&disks), Some(1));
    assert_eq!(format_root_disk_usage(&disks), "40.0 MB / 100.0 MB");
    assert_eq!(root_disk(&[]), None);
    assert_eq!(format_root_disk_usage(&[]), "--");
}

#[test]
fn network_values_use_stacked_layout_class() {
    assert_eq!(metric_value_row_class(true), "metric-value-row is-stacked");
    assert_eq!(metric_value_row_class(false), "metric-value-row");
}

#[test]
fn network_activity_uses_throughput_as_meter_percent() {
    assert_eq!(activity_band(0, 0), ActivityBand::Idle);
    assert_eq!(activity_band(32 * 1024, 0), ActivityBand::Quarter { start: 0, end: 64 * 1024, quarter: 0 });
    assert_eq!(
        activity_band(512 * 1024, 512 * 1024),
        ActivityBand::Quarter { start: 64 * 1024, end: 1024 * 1024, quarter: 1 }
    );
    assert_eq!(
        activity_band(100 * 1024 * 1024, 0),
        ActivityBand::Quarter { start: 10 * 1024 * 1024, end: 100 * 1024 * 1024, quarter: 3 }
    );
    assert_eq!(activity_band(u64::MAX, u64::MAX), ActivityBand::Full);
}

#[test]
fn network_title_contains_latency_directly() {
    assert_eq!(format_load_subvalue(25 * 3600), "1d 1h");
    assert_eq!(format_network_title("网络", 100), "网络 100ms");
    assert_eq!(format_network_title("Network", 0), "Network");
    assert_eq!(format_network_subvalue(2 * 1024), "↑ 2.0 KB/s");
}

#[test]
fn latency_level_maps_to_display_classes() {
    assert_eq!(latency_level(0), LatencyLevel::Unknown);
    assert_eq!(latency_level(80), LatencyLevel::Normal);
    assert_eq!(latency_level(150), LatencyLevel::Warn);
    assert_eq!(latency_level(300), LatencyLevel::Danger);
    assert_eq!(latency_level(300).class_name(), "latency-danger");
}

#[test]
fn format_cores_uses_real_sample_count() {
    assert_eq!(format_cores(1, "核心"), "1 核心");
    assert_eq!(format_cores(0, "核心"), "--");
}

#[test]
fn latency_level_boundaries() {
    assert_eq!(latency_level(149), LatencyLevel::Normal);
    assert_eq!(latency_level(299), LatencyLevel::Warn);
    assert_eq!(latency_level(u64::MAX), LatencyLevel::Danger);
    assert_eq!(LatencyLevel::Unknown.class_name(), "latency-unknown");
    assert_eq!(LatencyLevel::Warn.class_name(), "latency-warn");
    assert_eq!(LatencyLevel::Normal.class_name(), "latency-normal");
}

#[test]
fn the_first_root_mount_wins() {
    let disks = vec![
        DiskUsage { mount: "/".to_string(), used: 1, total: 2 },
        DiskUsage { mount: "/".to_string(), used: 3, total: 4 },
    ];
    assert_eq!(root_disk(&disks), Some(0));
    assert_eq!(format_root_disk_usage(&disks), "1 B / 2 B");
    assert_eq!(activity_band(64 * 1024, 1), ActivityBand::Quarter { start: 64 * 1024, end: 1024 * 1024, quarter: 1 });
    assert_eq!(activity_band(100 * 1024 * 1024, 1), ActivityBand::Full);
}

#[test]
fn disks_are_listed_root_first_then_by_mount() {
    let disk = |mount: &str, used: u64| DiskUsage { mount: mount.to_string(), used, total: 100 };
    let sorted = kt_ui::monitor::sorted_disks(vec![disk("/var", 1), disk("/boot", 2), disk("/", 3), disk("/boot", 4)]);
    let order: Vec<(&str, u64)> = sorted.iter().map(|d| (d.mount.as_str(), d.used)).collect();
    assert_eq!(order, vec![("/", 3), ("/boot", 2), ("/boot", 4), ("/var", 1)]);
    assert!(kt_ui::monitor::sorted_disks(Vec::new()).is_empty());
}
