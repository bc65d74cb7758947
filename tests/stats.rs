use zfs_monitor::{DemoCommandExecutor, DemoFilesystemReader, ZfsError, ZfsStatsCollector};

#[test]
fn test_parse_bandwidth_bytes() {
    let collector = ZfsStatsCollector::new(DemoCommandExecutor, DemoFilesystemReader);

    assert_eq!(collector.parse_bandwidth("1024").unwrap(), 1024);
    assert_eq!(collector.parse_bandwidth("0").unwrap(), 0);
}

#[test]
fn test_parse_bandwidth_with_units() {
    let collector = ZfsStatsCollector::new(DemoCommandExecutor, DemoFilesystemReader);

    assert_eq!(collector.parse_bandwidth("1K").unwrap(), 1024);
    assert_eq!(collector.parse_bandwidth("2M").unwrap(), 2 * 1024 * 1024);
    assert_eq!(
        collector.parse_bandwidth("1.5G").unwrap(),
        (1.5 * 1024.0 * 1024.0 * 1024.0) as u64
    );
    assert_eq!(
        collector.parse_bandwidth("1T").unwrap(),
        1024 * 1024 * 1024 * 1024
    );
}

#[test]
fn test_parse_bandwidth_empty_or_dash() {
    let collector = ZfsStatsCollector::new(DemoCommandExecutor, DemoFilesystemReader);

    assert_eq!(collector.parse_bandwidth("").unwrap(), 0);
    assert_eq!(collector.parse_bandwidth("-").unwrap(), 0);
}

#[test]
fn test_parse_bandwidth_invalid_number() {
    let collector = ZfsStatsCollector::new(DemoCommandExecutor, DemoFilesystemReader);

    let result = collector.parse_bandwidth("invalid");
    assert!(result.is_err());

    if let Err(ZfsError::ParseError { data_source, .. }) = result {
        assert_eq!(data_source, "bandwidth");
    } else {
        panic!("Expected ParseError");
    }
}

#[test]
fn test_parse_bandwidth_invalid_unit() {
    let collector = ZfsStatsCollector::new(DemoCommandExecutor, DemoFilesystemReader);

    let result = collector.parse_bandwidth("100X");
    assert!(result.is_err());

    if let Err(ZfsError::ParseError { data_source, .. }) = result {
        assert_eq!(data_source, "bandwidth");
    } else {
        panic!("Expected ParseError");
    }
}

#[test]
fn test_parse_bandwidth_edge_cases() {
    let collector = ZfsStatsCollector::new(DemoCommandExecutor, DemoFilesystemReader);

    assert_eq!(collector.parse_bandwidth("1.5K").unwrap(), 1536);
    assert_eq!(collector.parse_bandwidth("2.25M").unwrap(), 2359296);

    assert_eq!(collector.parse_bandwidth("1k").unwrap(), 1024);
    assert_eq!(collector.parse_bandwidth("1m").unwrap(), 1024 * 1024);

    assert_eq!(
        collector.parse_bandwidth("1000T").unwrap(),
        1000 * 1024u64 * 1024 * 1024 * 1024
    );
}

#[test]
fn test_parse_slog_device_from_status() {
    let collector = ZfsStatsCollector::new(DemoCommandExecutor, DemoFilesystemReader);

    let status_output = r#"
  pool: testpool
 state: ONLINE
  scan: none requested
config:

    NAME        STATE     READ WRITE CKSUM
    testpool    ONLINE       0     0     0
      raidz1-0  ONLINE       0     0     0
        sda     ONLINE       0     0     0
        sdb     ONLINE       0     0     0

logs
  mirror-1    ONLINE       0     0     0
    sdc       ONLINE       0     0     0
    sdd       ONLINE       0     0     0
"#;

    let result = collector.parse_slog_device_from_status(status_output);
    assert!(result.is_ok());
    assert_eq!(result.unwrap(), Some("mirror-1".to_string()));

    let status_output_no_slog = r#"
  pool: testpool
 state: ONLINE
config:

    NAME        STATE     READ WRITE CKSUM
    testpool    ONLINE       0     0     0
      raidz1-0  ONLINE       0     0     0
"#;

    let result = collector.parse_slog_device_from_status(status_output_no_slog);
    assert!(result.is_ok());
    assert_eq!(result.unwrap(), None);
}

#[test]
fn test_parse_slog_stats_from_iostat() {
    let collector = ZfsStatsCollector::new(DemoCommandExecutor, DemoFilesystemReader);

    let iostat_output = r#"
                              capacity     operations     bandwidth
pool                       alloc   free   read  write   read  write
--------------------------  -----  -----  -----  -----  -----  -----
testpool                   1.23T  2.34T      0     23      0  12.0M
  mirror-1                     -      -      0     23      0  12.0M
    sdc                         -      -      0     23      0  12.0M
--------------------------  -----  -----  -----  -----  -----
"#;

    let result = collector.parse_slog_stats_from_iostat(iostat_output, "mirror-1");
    assert!(result.is_ok());
    let (write_ops, write_bw) = result.unwrap();
    assert_eq!(write_ops, 23);
    assert_eq!(write_bw, 12 * 1024 * 1024);
}

#[test]
fn test_parse_slog_stats_from_iostat_no_device() {
    let collector = ZfsStatsCollector::new(DemoCommandExecutor, DemoFilesystemReader);

    let iostat_output = r#"
pool                       alloc   free   read  write   read  write
testpool                   1.23T  2.34T      0     23      0  12.0M
"#;

    let result = collector.parse_slog_stats_from_iostat(iostat_output, "nonexistent");
    assert!(result.is_ok());
    let (write_ops, write_bw) = result.unwrap();
    assert_eq!(write_ops, 0);
    assert_eq!(write_bw, 0);
}

#[test]
fn test_parse_slog_stats_from_iostat_invalid_data() {
    let collector = ZfsStatsCollector::new(DemoCommandExecutor, DemoFilesystemReader);

    let iostat_output = r#"
mirror-1                     -      -      0  invalid      0  12.0M
"#;

    let result = collector.parse_slog_stats_from_iostat(iostat_output, "mirror-1");
    assert!(result.is_err());

    if let Err(ZfsError::ParseError { data_source, .. }) = result {
        assert_eq!(data_source, "iostat write_ops");
    } else {
        panic!("Expected ParseError");
    }
}

#[test]
fn test_parse_slog_stats_from_iostat_invalid_bandwidth() {
    let collector = ZfsStatsCollector::new(DemoCommandExecutor, DemoFilesystemReader);

    let iostat_output = r#"
mirror-1                     -      -      0     23      0  invalid
"#;

    let result = collector.parse_slog_stats_from_iostat(iostat_output, "mirror-1");
    assert!(result.is_err());
}

#[test]
fn test_parse_arcstat_output_valid() {
    let collector = ZfsStatsCollector::new(DemoCommandExecutor, DemoFilesystemReader);
    let output = "95.2 1234 5368709120 8589934592";

    let result = collector.parse_arcstat_output(output);
    assert!(result.is_ok());

    let stats = result.unwrap();
    assert_eq!(stats.hit_rate.num as f64 / stats.hit_rate.den as f64, 95.2);
    assert_eq!(stats.read_ops, 1234);
    assert_eq!(stats.size, 5368709120);
    assert_eq!(stats.target, 8589934592);
}

#[test]
fn test_parse_arcstat_output_insufficient_parts() {
    let collector = ZfsStatsCollector::new(DemoCommandExecutor, DemoFilesystemReader);
    let output = "95.2 1234";

    let result = collector.parse_arcstat_output(output);
    assert!(result.is_err());

    if let Err(ZfsError::InvalidFormat {
        expected, received, ..
    }) = result
    {
        assert_eq!(expected, "at least 4 space-separated numbers");
        assert_eq!(received, "2 parts");
    } else {
        panic!("Expected InvalidFormat error");
    }
}

#[test]
fn test_parse_arcstat_output_invalid_hit_rate() {
    let collector = ZfsStatsCollector::new(DemoCommandExecutor, DemoFilesystemReader);
    let output = "invalid 4.8 1234 5368709120 8589934592";

    let result = collector.parse_arcstat_output(output);
    assert!(result.is_err());

    if let Err(ZfsError::ParseError { data_source, .. }) = result {
        assert_eq!(data_source, "arcstat hit_rate");
    } else {
        panic!("Expected ParseError");
    }
}

#[test]
fn test_parse_arcstat_output_edge_cases() {
    let collector = ZfsStatsCollector::new(DemoCommandExecutor, DemoFilesystemReader);

    let output = "  95.2   1234   5368709120  8589934592  ";
    let result = collector.parse_arcstat_output(output);
    assert!(result.is_ok());
    let stats = result.unwrap();
    assert_eq!(stats.hit_rate.num as f64 / stats.hit_rate.den as f64, 95.2);

    let output = "95.2\t1234\t5368709120\t8589934592";
    let result = collector.parse_arcstat_output(output);
    assert!(result.is_ok());
}

#[test]
fn test_parse_arcstat_output_invalid_read_ops() {
    let collector = ZfsStatsCollector::new(DemoCommandExecutor, DemoFilesystemReader);
    let output = "95.2 invalid 5368709120 8589934592";

    let result = collector.parse_arcstat_output(output);
    assert!(result.is_err());

    if let Err(ZfsError::ParseError { data_source, .. }) = result {
        assert_eq!(data_source, "arcstat read_ops");
    } else {
        panic!("Expected ParseError");
    }
}

#[test]
fn test_parse_arcstat_output_invalid_size() {
    let collector = ZfsStatsCollector::new(DemoCommandExecutor, DemoFilesystemReader);
    let output = "95.2 invalid 5368709120 8589934592";

    let result = collector.parse_arcstat_output(output);
    assert!(result.is_err());

    if let Err(ZfsError::ParseError { data_source, .. }) = result {
        assert_eq!(data_source, "arcstat read_ops");
    } else {
        panic!("Expected ParseError");
    }
}

#[test]
fn test_parse_arcstat_output_invalid_target() {
    let collector = ZfsStatsCollector::new(DemoCommandExecutor, DemoFilesystemReader);
    let output = "95.2 1234 invalid 8589934592";

    let result = collector.parse_arcstat_output(output);
    assert!(result.is_err());

    if let Err(ZfsError::ParseError { data_source, .. }) = result {
        assert_eq!(data_source, "arcstat size");
    } else {
        panic!("Expected ParseError");
    }
}

#[test]
fn test_cache_operations() {
    let mut collector = ZfsStatsCollector::new(DemoCommandExecutor, DemoFilesystemReader);

    assert!(collector.cache().is_empty());

    collector.clear_cache();
    assert!(collector.cache().is_empty());

    collector.cleanup_cache();
    assert!(collector.cache().is_empty());
}
