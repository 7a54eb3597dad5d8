use kt_ui::local_time::{format_sftp_time, format_time};

fn shape(text: &str, separators: &[(usize, char)]) -> bool {
    text.chars().enumerate().all(|(i, c)| match separators.iter().find(|(at, _)| *at == i) {
        Some((_, sep)) => c == *sep,
        None => c.is_ascii_digit(),
    })
}

#[test]
fn unknown_times_show_nothing() {
    assert_eq!(format_sftp_time(None), "");
}

#[test]
fn table_times_are_full_local_dates() {
    for stamp in [0u32, 86_400, 1_700_000_000, u32::MAX] {
        let text = format_sftp_time(Some(stamp));
        assert_eq!(text.chars().count(), 19);
        assert!(shape(&text, &[(4, '/'), (7, '/'), (10, ' '), (13, ':'), (16, ':')]), "{text}");
    }
}

#[test]
fn list_times_are_month_day_and_minutes() {
    for stamp in [0u32, 1_700_000_000, u32::MAX] {
        let text = format_time(stamp);
        assert_eq!(text.chars().count(), 11);
        assert!(shape(&text, &[(2, '-'), (5, ' '), (8, ':')]), "{text}");
    }
}

#[test]
fn times_are_the_local_rendering_of_the_timestamp() {
    for stamp in [0u32, 86_399, 1_700_000_000, 4_000_000_000] {
        let time = std::time::UNIX_EPOCH + std::time::Duration::from_secs(stamp as u64);
        let local: chrono::DateTime<chrono::Local> = time.into();
        assert_eq!(format_sftp_time(Some(stamp)), local.format("%Y/%m/%d %H:%M:%S").to_string());
        assert_eq!(format_time(stamp), local.format("%m-%d %H:%M").to_string());
    }
    assert_ne!(format_time(0), format_time(1_700_000_000));
}
