use kt_ui::metrics_format::{format_bytes, format_rate, format_uptime};

#[test]
fn bytes_and_rates_use_the_same_compact_units() {
    assert_eq!(format_bytes(1536), "1.5 KB");
    assert_eq!(format_bytes(2 * 1024 * 1024), "2.0 MB");
    assert_eq!(format_rate(2 * 1024), "2.0 KB/s");
}

#[test]
fn uptime_uses_compact_days_and_hours() {
    assert_eq!(format_uptime(3600), "1h");
    assert_eq!(format_uptime(25 * 3600), "1d 1h");
}

/// The float rendering that the integer arithmetic reproduces.
fn float_reference(bytes: u64) -> String {
    const KB: u64 = 1024;
    const MB: u64 = 1024 * KB;
    const GB: u64 = 1024 * MB;
    if bytes >= GB {
        format!("{:.1} GB", bytes as f64 / GB as f64)
    } else if bytes >= MB {
        format!("{:.1} MB", bytes as f64 / MB as f64)
    } else if bytes >= KB {
        format!("{:.1} KB", bytes as f64 / KB as f64)
    } else {
        format!("{} B", bytes)
    }
}

#[test]
fn byte_formatting_matches_float_rendering_including_ties() {
    let mut samples: Vec<u64> = vec![
        0, 1, 1023, 1024, 1280, 1536, 1126, 1127, 1177, 3328, 1048575, 1048576,
        1310720, 5 * 1024 * 1024 + 256 * 1024, 1073741823, 1073741824,
        1342177280, u64::MAX, u64::MAX - 1, 1 << 53, (1 << 53) + 1,
        (1 << 60) + (1 << 6) + 1, 18_014_398_509_481_983,
    ];
    let mut x: u64 = 0x9E37_79B9_7F4A_7C15;
    for _ in 0..20_000 {
        x ^= x << 13;
        x ^= x >> 7;
        x ^= x << 17;
        samples.push(x >> (x % 64));
        samples.push((x % 4096) * 256);
    }
    for bytes in samples {
        assert_eq!(format_bytes(bytes), float_reference(bytes), "{bytes}");
    }
}

#[test]
fn tenths_ties_round_to_even() {
    assert_eq!(format_bytes(1280), "1.2 KB");
    assert_eq!(format_bytes(3328), "3.2 KB");
    assert_eq!(format_bytes(1024 * 1024 + 1024 * 1024 / 4 * 3), "1.8 MB");
}

#[test]
fn small_counts_are_plain_bytes() {
    assert_eq!(format_bytes(0), "0 B");
    assert_eq!(format_bytes(1023), "1023 B");
    assert_eq!(format_uptime(0), "0h");
    assert_eq!(format_uptime(24 * 3600 - 1), "23h");
    assert_eq!(format_uptime(48 * 3600), "2d 0h");
}
