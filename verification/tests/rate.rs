use tray_traffic::format_bytes_speed;

// The text that floating-point formatting gives for a rate scaled by `unit`.
fn scaled(bytes: u64, unit: f64, suffix: &str) -> String {
    format!("{:.1}{}", bytes as f64 / unit, suffix)
}

#[test]
fn zero_rate_is_written_in_bytes() {
    assert_eq!(format_bytes_speed(0), "0B/s");
}

#[test]
fn one_and_a_half_kilobytes() {
    assert_eq!(format_bytes_speed(1536), "1.5KB/s");
}

#[test]
fn rates_below_one_kilobyte_are_whole_bytes() {
    for bytes in 0..1024u64 {
        let text = format_bytes_speed(bytes);
        assert!(!text.contains('.'), "{}", text);
        assert!(text.ends_with("B/s"), "{}", text);
        assert!(!text.ends_with("KB/s"), "{}", text);
        assert_eq!(text, format!("{}B/s", bytes));
    }
}

#[test]
fn largest_rate_in_bytes() {
    assert_eq!(format_bytes_speed(1023), "1023B/s");
}

#[test]
fn unit_boundaries() {
    assert_eq!(format_bytes_speed(1024), "1.0KB/s");
    assert_eq!(format_bytes_speed(1024 * 1024), "1.0MB/s");
    assert_eq!(format_bytes_speed(1024 * 1024 * 1024), "1.0GB/s");
    assert_eq!(format_bytes_speed(1 << 40), "1.0TB/s");
    assert_eq!(format_bytes_speed(1 << 50), "1.0PB/s");
    assert_eq!(format_bytes_speed(1 << 60), "1.0EB/s");
}

#[test]
fn just_below_a_unit_rounds_up_in_the_smaller_unit() {
    assert_eq!(format_bytes_speed(1024 * 1024 - 1), "1024.0KB/s");
    assert_eq!(format_bytes_speed(1024 * 1024 * 1024 - 1), "1024.0MB/s");
}

#[test]
fn largest_rate() {
    assert_eq!(format_bytes_speed(u64::MAX), "16.0EB/s");
}

#[test]
fn two_hundred_thousand_bytes() {
    assert_eq!(format_bytes_speed(200_000), "195.3KB/s");
}

#[test]
fn one_hundred_bytes() {
    assert_eq!(format_bytes_speed(100), "100B/s");
}

#[test]
fn tenths_are_rounded_to_nearest() {
    // 1.04 KB, 1.06 KB
    assert_eq!(format_bytes_speed(1065), "1.0KB/s");
    assert_eq!(format_bytes_speed(1086), "1.1KB/s");
    // 9.99 MB
    assert_eq!(format_bytes_speed(10_475_274), "10.0MB/s");
}

#[test]
fn exact_halves_go_to_the_even_tenth() {
    // 1.25 KB, 1.75 KB, 2.25 KB, 1.35 KB is no exact half
    assert_eq!(format_bytes_speed(1280), "1.2KB/s");
    assert_eq!(format_bytes_speed(1792), "1.8KB/s");
    assert_eq!(format_bytes_speed(2304), "2.2KB/s");
    assert_eq!(format_bytes_speed(1024 + 768 + 51), "1.8KB/s");
}

#[test]
fn kilobytes_agree_with_floating_point_formatting() {
    let mut bytes: u64 = 1024;
    while bytes < 1024 * 1024 {
        assert_eq!(format_bytes_speed(bytes), scaled(bytes, 1024.0, "KB/s"));
        bytes += 37;
    }
}

#[test]
fn megabytes_agree_with_floating_point_formatting() {
    let mut bytes: u64 = 1024 * 1024;
    while bytes < 1024 * 1024 * 1024 {
        assert_eq!(format_bytes_speed(bytes), scaled(bytes, 1024.0 * 1024.0, "MB/s"));
        bytes += 104_729;
    }
}

#[test]
fn gigabytes_agree_with_floating_point_formatting() {
    let mut bytes: u64 = 1 << 30;
    while bytes < 1 << 40 {
        assert_eq!(
            format_bytes_speed(bytes),
            scaled(bytes, 1024.0 * 1024.0 * 1024.0, "GB/s")
        );
        bytes += 1_299_709_123;
    }
}

#[test]
fn halves_agree_with_floating_point_formatting() {
    for quarter in 4..400u64 {
        let bytes = quarter * 256;
        assert_eq!(format_bytes_speed(bytes), scaled(bytes, 1024.0, "KB/s"));
    }
}
