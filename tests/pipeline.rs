use std::time::Duration;
use zfs_monitor::collector::arcstat_command;
use zfs_monitor::demo::{DEMO_ARCSTATS, DEMO_ZPOOL_IOSTAT, DEMO_ZPOOL_STATUS};
use zfs_monitor::pool_output::{status_line_effect, LineEffect};
use zfs_monitor::types::hit_rate;
use zfs_monitor::{
    parse_bandwidth, ArcStep, CacheStatus, DemoCommandExecutor, DemoFilesystemReader,
    MonitorError, Percent, PoolManager, ProgressBar, SlogStep, Timestamp, ZfsError,
    ZfsStatsCollector,
};

const KSTAT_FIRST: &str = "13 1 0x01 96 26112 1 2\nname                            type data\nhits                            4    900\nmisses                          4    100\nsize                            4    49720066048\nc_max                           4    49910562816\nread_ops                        4    1247\n";
const KSTAT_SECOND: &str = "13 1 0x01 96 26112 1 2\nname                            type data\nhits                            4    900\nmisses                          4    100\nsize                            4    49720066048\nc_max                           4    49910562816\nread_ops                        4    1347\n";

fn collector() -> ZfsStatsCollector<DemoCommandExecutor, DemoFilesystemReader> {
    ZfsStatsCollector::new(DemoCommandExecutor, DemoFilesystemReader)
}

#[test]
fn arc_from_kernel_statistics_then_rate_one_second_later() {
    let mut c = collector();
    let first = c.arc_from_kstat(KSTAT_FIRST, Timestamp::from_secs(10)).unwrap();
    assert_eq!(first.hit_rate.num as f64 / first.hit_rate.den as f64, 90.0);
    assert_eq!(first.size, 49720066048);
    assert_eq!(first.target, 49910562816);
    assert_eq!(first.read_ops, 0);
    let second = c.arc_from_kstat(KSTAT_SECOND, Timestamp::from_secs(11)).unwrap();
    assert_eq!(second.read_ops, 100);
}

#[test]
fn hit_rate_is_hits_over_accesses() {
    assert_eq!(hit_rate(900, 100), Percent { num: 90000, den: 1000 });
    assert_eq!(hit_rate(0, 0), Percent { num: 0, den: 1 });
    assert_eq!(hit_rate(0, 5), Percent { num: 0, den: 5 });
    let full = hit_rate(u64::MAX, 1);
    assert_eq!(full.num, 100 * u64::MAX as u128);
    assert_eq!(full.den, u64::MAX as u128 + 1);
}

#[test]
fn kstat_bad_value_is_a_parse_error() {
    let mut c = collector();
    let text = "name type data\nhits 4 12x\n";
    match c.arc_from_kstat(text, Timestamp::from_secs(0)) {
        Err(ZfsError::ParseError { data_source, data, .. }) => {
            assert_eq!(data_source, "ARC kstat");
            assert_eq!(data, "12x");
        }
        other => panic!("unexpected {:?}", other),
    }
    // Unknown names and short lines are ignored; a header-like first word is skipped.
    let ok = c.arc_from_kstat("name x y\nfoo 4 bar\nshort 1\nhits 4 3\n", Timestamp::from_secs(0));
    assert_eq!(ok.unwrap().hit_rate, Percent { num: 300, den: 3 });
    // A bad value of a secondary-cache counter fails only that family.
    let mixed = "hits 4 1\nmisses 4 1\nl2_size 4 5\nl2_hits 4 oops\n";
    assert!(c.arc_from_kstat(mixed, Timestamp::from_secs(0)).is_ok());
    match c.l2arc_from_kstat(mixed, Timestamp::from_secs(0)) {
        Err(ZfsError::ParseError { data_source, data, .. }) => {
            assert_eq!(data_source, "L2ARC kstat");
            assert_eq!(data, "oops");
        }
        other => panic!("unexpected {:?}", other),
    }
}

#[test]
fn l2arc_present_in_demo_statistics() {
    let mut c = collector();
    let first = c.l2arc_from_kstat(DEMO_ARCSTATS, Timestamp::from_secs(0)).unwrap().unwrap();
    assert_eq!(first.hit_rate, Percent { num: 65_500_000, den: 892_000 });
    assert_eq!(first.size, 594542387200);
    assert_eq!(first.total_ops, 0);
    assert_eq!(first.read_bytes, 0);
    let second = c.l2arc_from_kstat(DEMO_ARCSTATS, Timestamp::from_secs(2)).unwrap().unwrap();
    assert_eq!(second.total_ops, 0);
}

#[test]
fn l2arc_absent_without_size_line() {
    let mut c = collector();
    assert!(c.l2arc_from_kstat(KSTAT_FIRST, Timestamp::from_secs(0)).unwrap().is_none());
    // The marker must start the line.
    let text = "name type data\n  l2_size 4 5\n";
    assert!(c.l2arc_from_kstat(text, Timestamp::from_secs(0)).unwrap().is_none());
}

#[test]
fn arc_falls_back_through_command_variants() {
    let mut c = collector();
    let now = Timestamp::from_secs(1);
    match c.arc_after_kstat(Err("missing".to_string()), now) {
        ArcStep::Run { variant } => assert_eq!(variant, 0),
        _ => panic!("expected the first command"),
    }
    match c.arc_after_kstat(Ok("hits 4 nope\n".to_string()), now) {
        ArcStep::Run { variant } => assert_eq!(variant, 0),
        _ => panic!("expected the first command"),
    }
    match c.arc_after_command(0, Err("failed".to_string()), now) {
        ArcStep::Run { variant } => assert_eq!(variant, 1),
        _ => panic!("expected the second command"),
    }
    match c.arc_after_command(1, Ok("100.0 0.0 1247 1 2".to_string()), now) {
        ArcStep::Run { variant } => assert_eq!(variant, 2),
        _ => panic!("expected the third command"),
    }
    match c.arc_after_command(2, Err("failed".to_string()), now) {
        ArcStep::Done(Err(ZfsError::SubsystemUnavailable { subsystem, .. })) => {
            assert_eq!(subsystem, "ARC")
        }
        _ => panic!("expected the subsystem to be unavailable"),
    }
    match c.arc_after_command(1, Ok("95.2 1234 5 6".to_string()), now) {
        ArcStep::Done(Ok(s)) => {
            assert_eq!(s.read_ops, 0);
            assert_eq!(s.size, 5);
            assert_eq!(s.target, 6);
        }
        _ => panic!("expected a record"),
    }
    match c.arc_after_command(0, Ok("95.2 1334 5 6".to_string()), Timestamp::from_secs(2)) {
        ArcStep::Done(Ok(s)) => assert_eq!(s.read_ops, 100),
        _ => panic!("expected a record"),
    }
}

#[test]
fn arc_from_kernel_file_wins() {
    let mut c = collector();
    match c.arc_after_kstat(Ok(DEMO_ARCSTATS.to_string()), Timestamp::from_secs(0)) {
        ArcStep::Done(Ok(s)) => {
            assert_eq!(s.hit_rate.num, 100 * u64::MAX as u128);
            assert_eq!(s.target, 49910562816);
        }
        _ => panic!("expected a record"),
    }
}

#[test]
fn arcstat_variants_in_order() {
    assert_eq!(arcstat_command(0).0, "arcstat");
    assert_eq!(arcstat_command(0).1, vec!["-f", "hit%,miss%,read,arcsz,c", "1", "1"]);
    assert_eq!(arcstat_command(1).1, vec!["1", "1"]);
    assert_eq!(arcstat_command(2).0, "echo");
}

#[test]
fn slog_device_found_in_logs_section() {
    let c = collector();
    let status = "config:\n\n\tNAME STATE\n\tdata ONLINE 0 0 0\nlogs\n  mirror-1 ONLINE 0 0 0\n    sdc ONLINE 0 0 0\n";
    assert_eq!(c.parse_slog_device_from_status(status).unwrap(), Some("mirror-1".to_string()));
    assert_eq!(
        c.parse_slog_device_from_status(DEMO_ZPOOL_STATUS).unwrap(),
        Some("mirror-1".to_string())
    );
    // A section that ends before any mirror names no device.
    let ended = "logs\n  sdc ONLINE 0 0 0\nerrors: none\n  mirror-2 ONLINE\n";
    assert_eq!(c.parse_slog_device_from_status(ended).unwrap(), None);
}

#[test]
fn slog_absent_without_logs_section() {
    let mut c = collector();
    let now = Timestamp::from_secs(0);
    assert!(matches!(c.slog_begin(now), SlogStep::RunStatus));
    let status = "  pool: data\n state: ONLINE\nconfig:\n\tdata ONLINE 0 0 0\n";
    match c.slog_after_status(Ok(status.to_string()), now) {
        SlogStep::Done(Ok(None)) => {}
        _ => panic!("expected no log device"),
    }
    // The status text is cached now.
    assert_eq!(c.cache().len(), 1);
    match c.slog_begin(now) {
        SlogStep::Done(Ok(None)) => {}
        _ => panic!("expected the cached status to be used"),
    }
}

#[test]
fn slog_collection_with_rates() {
    let mut c = collector();
    let t0 = Timestamp::from_secs(0);
    assert!(matches!(c.slog_begin(t0), SlogStep::RunStatus));
    let device = match c.slog_after_status(Ok(DEMO_ZPOOL_STATUS.to_string()), t0) {
        SlogStep::RunIostat { device } => device,
        _ => panic!("expected the statistics command"),
    };
    assert_eq!(device, "mirror-1");
    match c.slog_after_iostat(device, Ok(DEMO_ZPOOL_IOSTAT.to_string()), t0) {
        SlogStep::Done(Ok(Some(s))) => {
            assert_eq!(s.device, "mirror-1");
            assert_eq!(s.write_ops, 0);
            assert_eq!(s.write_bw, 0);
        }
        _ => panic!("expected a record"),
    }
    assert!(c.rate_calculator().has_previous_data("slog_mirror-1_write_ops"));
    assert_eq!(
        c.rate_calculator().previous("slog_mirror-1_write_bw").unwrap().value,
        12582912
    );
    // Both outputs are cached: the next collection needs no command.
    match c.slog_begin(Timestamp::from_secs(1)) {
        SlogStep::Done(Ok(Some(s))) => assert_eq!(s.write_ops, 0),
        _ => panic!("expected cached output to be used"),
    }
}

#[test]
fn slog_command_failure_is_reported() {
    let mut c = collector();
    match c.slog_after_status(Err("no pool".to_string()), Timestamp::from_secs(0)) {
        SlogStep::Done(Err(ZfsError::CommandError { command, args, message })) => {
            assert_eq!(command, "zpool");
            assert_eq!(args, vec!["status".to_string()]);
            assert_eq!(message, "no pool");
        }
        _ => panic!("expected a command error"),
    }
    assert!(c.cache().is_empty());
}

#[test]
fn iostat_row_for_device() {
    let c = collector();
    let text = "pool alloc free read write read write\n  mirror-1   -   -   0   23   0   12.0M\n";
    assert_eq!(c.parse_slog_stats_from_iostat(text, "mirror-1").unwrap(), (23, 12582912));
    // A short line naming the device takes its row from the next data line.
    let split = "mirror-1\n---------\n\n  disk   -   -   0   7   0   1K\n";
    assert_eq!(c.parse_slog_stats_from_iostat(split, "mirror-1").unwrap(), (7, 1024));
    let short = "mirror-1\n  a b c\n";
    assert_eq!(c.parse_slog_stats_from_iostat(short, "mirror-1").unwrap(), (0, 0));
}

#[test]
fn bandwidth_scenarios() {
    assert_eq!(parse_bandwidth("1.5G").unwrap(), 1610612736);
    assert_eq!(parse_bandwidth("12.0M").unwrap(), 12582912);
    assert_eq!(parse_bandwidth("1.82T").unwrap(), 2001111162552);
    assert_eq!(parse_bandwidth("100B").unwrap(), 100);
    assert_eq!(parse_bandwidth(" 3K ").unwrap(), 3072);
    assert_eq!(parse_bandwidth(".5K").unwrap(), 512);
    assert_eq!(parse_bandwidth("2.K").unwrap(), 2048);
    assert_eq!(parse_bandwidth("-1K").unwrap(), 0);
    assert_eq!(parse_bandwidth("+1K").unwrap(), 1024);
    assert_eq!(parse_bandwidth("99999999T").unwrap(), u64::MAX);
    assert_eq!(parse_bandwidth("0.0009765625K").unwrap(), 1);
    match parse_bandwidth("100X") {
        Err(ZfsError::ParseError { data_source, .. }) => assert_eq!(data_source, "bandwidth"),
        _ => panic!("expected a parse error"),
    }
    match parse_bandwidth("1.2.3K") {
        Err(ZfsError::ParseError { data_source, .. }) => assert_eq!(data_source, "bandwidth number"),
        _ => panic!("expected a parse error"),
    }
    match parse_bandwidth("   ") {
        Err(ZfsError::InvalidFormat { context, .. }) => assert_eq!(context, "bandwidth parsing"),
        _ => panic!("expected an invalid format"),
    }
    match parse_bandwidth("K") {
        Err(ZfsError::ParseError { data_source, .. }) => assert_eq!(data_source, "bandwidth number"),
        _ => panic!("expected a parse error"),
    }
}

#[test]
fn cache_status_thresholds() {
    let p = |num: u128| Percent { num, den: 1000 };
    assert_eq!(CacheStatus::from_percent(p(85000)), CacheStatus::Excellent);
    assert_eq!(CacheStatus::from_percent(p(84999)), CacheStatus::Good);
    assert_eq!(CacheStatus::from_percent(p(70000)), CacheStatus::Good);
    assert_eq!(CacheStatus::from_percent(p(69999)), CacheStatus::Fair);
    assert_eq!(CacheStatus::from_percent(p(50000)), CacheStatus::Fair);
    assert_eq!(CacheStatus::from_percent(p(49999)), CacheStatus::Poor);
    assert_eq!(CacheStatus::Excellent.label(), "Excellent");
    assert_eq!(CacheStatus::Poor.label(), "Poor");
}

#[test]
fn demo_responses() {
    let e = DemoCommandExecutor;
    assert_eq!(e.get_demo_response("zpool", &["status"]), Some(DEMO_ZPOOL_STATUS));
    assert_eq!(e.get_demo_response("zpool", &["iostat", "-v"]), Some(DEMO_ZPOOL_IOSTAT));
    assert_eq!(
        e.get_demo_response("zpool", &["list", "-H", "-o", "name"]),
        Some("boot-pool\ndata\nusb-backup\n")
    );
    assert!(e.get_demo_response("arcstat", &["1", "1"]).is_some());
    assert!(e.get_demo_response("echo", &["|", "arcstat"]).is_some());
    assert_eq!(e.get_demo_response("zpool", &["status", "-v"]), None);
    assert_eq!(e.get_demo_response("ls", &[]), None);
    let r = DemoFilesystemReader;
    assert_eq!(r.get_demo_content("/proc/spl/kstat/zfs/arcstats"), Some(DEMO_ARCSTATS));
    assert_eq!(r.get_demo_content("/etc/passwd"), None);
}

#[test]
fn pools_known_to_the_manager() {
    let m = PoolManager::new(DemoCommandExecutor);
    assert_eq!(m.list_pools().unwrap(), vec!["boot-pool", "data", "usb-backup"]);
    assert!(m.validate_pool("data").unwrap());
    assert!(!m.validate_pool("tank").unwrap());
    assert_eq!(m.get_default_pool().unwrap(), "boot-pool");
}

#[test]
fn progress_bar_cells() {
    let pb = ProgressBar::new(10);
    assert_eq!(pb.width(), 10);
    assert_eq!(pb.bar(10), "[##########]");
    assert_eq!(pb.bar(5), "[#####.....]");
    assert_eq!(pb.bar(0), "[..........]");
    assert_eq!(pb.bar(12), "[############]");
    assert_eq!(ProgressBar::default().width(), 20);
}

#[test]
fn error_constructors_and_messages() {
    match ZfsError::command_error("zpool", &["iostat", "-v"], "boom") {
        ZfsError::CommandError { command, args, message } => {
            assert_eq!(command, "zpool");
            assert_eq!(args, vec!["iostat".to_string(), "-v".to_string()]);
            assert_eq!(message, "boom");
        }
        _ => panic!(),
    }
    assert!(matches!(ZfsError::filesystem_error("/p", "read", "m"), ZfsError::FilesystemError { .. }));
    assert!(matches!(ZfsError::parse_error("s", "d", "r"), ZfsError::ParseError { .. }));
    assert!(matches!(ZfsError::invalid_format("e", "g", "c"), ZfsError::InvalidFormat { .. }));
    assert!(matches!(ZfsError::subsystem_unavailable("ARC", "r"), ZfsError::SubsystemUnavailable { .. }));
    assert!(matches!(ZfsError::cache_error("get", "k", "m"), ZfsError::CacheError { .. }));
    assert!(matches!(ZfsError::rate_calculation_error("m", "r"), ZfsError::RateCalculationError { .. }));
    match ZfsError::timeout_error("arcstat", Duration::from_secs(3)) {
        ZfsError::TimeoutError { operation, timeout } => {
            assert_eq!(operation, "arcstat");
            assert_eq!(timeout, Duration::from_secs(3));
        }
        _ => panic!(),
    }
    assert_eq!(MonitorError::PoolNotFound("tank".to_string()).describe(), "Pool 'tank' not found");
    assert_eq!(MonitorError::ZfsUnavailable.describe(), "ZFS is not available on this system");
    assert_eq!(MonitorError::ParseError("x".to_string()).describe(), "Parse error: x");
}

#[test]
fn status_line_effects() {
    let chars = |s: &str| s.chars().collect::<Vec<char>>();
    assert!(matches!(status_line_effect(false, &chars("logs"), true), LineEffect::Stay(true)));
    assert!(matches!(status_line_effect(false, &chars("mirror-1 ONLINE"), true), LineEffect::Stay(false)));
    match status_line_effect(true, &chars("mirror-3 ONLINE 0 0 0"), true) {
        LineEffect::Device(d) => assert_eq!(d, "mirror-3"),
        _ => panic!("expected a device"),
    }
    assert!(matches!(status_line_effect(true, &chars("errors: none"), true), LineEffect::Stop));
    assert!(matches!(status_line_effect(true, &chars("errors: none"), false), LineEffect::Stay(true)));
    assert!(matches!(status_line_effect(true, &chars("sdc ONLINE 0 0 0"), true), LineEffect::Stay(true)));
    assert!(matches!(status_line_effect(true, &chars(""), true), LineEffect::Stay(true)));
}
