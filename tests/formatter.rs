use zfs_monitor::{format_bytes, format_bytes_ratio, format_ops_per_second, format_rate};

#[test]
fn test_format_bytes() {
    assert_eq!(format_bytes(0), "0 B");
    assert_eq!(format_bytes(512), "512 B");
    assert_eq!(format_bytes(1024), "1.0K");
    assert_eq!(format_bytes(1536), "1.5K");
    assert_eq!(format_bytes(1024 * 1024), "1.0M");
    assert_eq!(format_bytes(1024 * 1024 * 1024), "1.0G");
    assert_eq!(format_bytes(1024 * 1024 * 1024 * 1024), "1.0T");
}

#[test]
fn test_format_bytes_ratio() {
    assert_eq!(format_bytes_ratio(1024, 2048), "1.0K/2.0K");
    assert_eq!(
        format_bytes_ratio(46_301_224_960, 49_910_562_816),
        "43.1G/46.5G"
    );
}

#[test]
fn test_format_rate() {
    assert_eq!(format_rate(1024), "1.0K/s");
    assert_eq!(format_rate(1024 * 1024), "1.0M/s");
}

#[test]
fn test_format_ops_per_second() {
    assert_eq!(format_ops_per_second(1000), "1000/s");
    assert_eq!(format_ops_per_second(50), "50/s");
}

#[test]
fn format_bytes_edges() {
    assert_eq!(format_bytes(1023), "1023 B");
    assert_eq!(format_bytes(1024 * 1024 * 1024 * 1024 * 1024), "1.0P");
    assert_eq!(format_bytes(1024 * 1024 * 1024 * 1024 * 1024 * 1024), "1024.0P");
    // 1.25K is a tie between 1.2K and 1.3K: it goes to the even tenth.
    assert_eq!(format_bytes(1280), "1.2K");
    assert_eq!(format_bytes(1331), "1.3K");
    assert_eq!(format_bytes(1047552), "1023.0K");
    assert_eq!(format_bytes(1048524), "1023.9K");
    assert_eq!(format_bytes(1048575), "1024.0K");
}
