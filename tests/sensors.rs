use waysensor::battery::BatteryError;
use waysensor::config::{ColorConfig, GaugeStyle, IconConfig, SparklineStyle, TooltipDetail, VisualConfig};
use waysensor::cpu::{CpuStats, PerCoreCpuStats};
use waysensor::error::SensorError;
use waysensor::memory::MemoryInfo;
use waysensor::words::{parse_u64, split_words};

#[test]
fn error_test_error_creation() {
    let err = BatteryError::battery_not_found("BAT0");
    assert_eq!(err.category(), "not_found");
    assert!(!err.is_recoverable());
}

#[test]
fn test_safety_critical() {
    let thermal_err = BatteryError::thermal("overheating");
    assert!(thermal_err.is_safety_critical());
    assert!(!thermal_err.is_recoverable());

    let io_err = BatteryError::io("read failed");
    assert!(!io_err.is_safety_critical());
    assert!(io_err.is_recoverable());
}

#[test]
fn error_test_error_conversions() {
    let io_err = std::io::Error::new(std::io::ErrorKind::NotFound, "file not found");
    let battery_err: BatteryError = io_err.into();
    assert!(matches!(battery_err, BatteryError::Io { .. }));
    if let BatteryError::Io { message } = battery_err {
        assert_eq!(message, "file not found");
    }
}

#[test]
fn battery_retry_delays() {
    assert_eq!(BatteryError::timeout("read", 10).retry_delay(), Some(500));
    assert_eq!(BatteryError::resource("mem").retry_delay(), Some(1000));
    assert_eq!(BatteryError::service("upower", "down").retry_delay(), Some(2000));
    assert_eq!(BatteryError::analytics("trend", "nan").retry_delay(), Some(100));
    assert_eq!(BatteryError::parse("int", "x").retry_delay(), Some(250));
    assert_eq!(BatteryError::config("f", "r").retry_delay(), None);
    assert_eq!(BatteryError::permission("write").retry_delay(), None);
    assert_eq!(BatteryError::thermal("hot").retry_delay(), None);
    assert_eq!(BatteryError::power_management("op", "r").category(), "power");
    assert_eq!(BatteryError::invalid_state("s", "r").category(), "state");
    assert_eq!(BatteryError::health("r").category(), "health");
    assert_eq!(BatteryError::prediction("m", "r").category(), "prediction");
    assert_eq!(BatteryError::discovery("r").category(), "discovery");
}

#[test]
fn test_cpu_stats_parsing() {
    let line = "cpu  1234 5678 9012 3456 7890 1234 5678 9012";
    let stats = CpuStats::parse_from_proc_stat_line(line).unwrap();
    assert_eq!(stats.user, 1234);
    assert_eq!(stats.nice, 5678);
    assert_eq!(stats.system, 9012);
    assert_eq!(stats.idle, 3456);
    assert_eq!(stats.iowait, 7890);
    assert_eq!(stats.irq, 1234);
    assert_eq!(stats.softirq, 5678);
    assert_eq!(stats.steal, 9012);
}

#[test]
fn test_cpu_stats_minimal() {
    let line = "cpu  100 200 300 400";
    let stats = CpuStats::parse_from_proc_stat_line(line).unwrap();
    assert_eq!(stats.user, 100);
    assert_eq!(stats.nice, 200);
    assert_eq!(stats.system, 300);
    assert_eq!(stats.idle, 400);
    assert_eq!(stats.iowait, 0);
    assert_eq!(stats.irq, 0);
    assert_eq!(stats.softirq, 0);
    assert_eq!(stats.steal, 0);
}

#[test]
fn cpu_stats_errors_and_totals() {
    match CpuStats::parse_from_proc_stat_line("cpu 1 2 3") {
        Err(SensorError::Parse { message, .. }) => {
            assert_eq!(message, "Insufficient CPU statistics: expected at least 4, got 3")
        }
        _ => panic!("expected a parse error"),
    }
    assert!(CpuStats::parse_from_proc_stat_line("intr 1 2 3 4").is_err());
    assert!(CpuStats::parse_from_proc_stat_line("cpu 1 2 x 4").is_err());
    let s = CpuStats::parse_from_proc_stat_line("cpu 1 2 3 4 5 6 7 8 9 10").unwrap();
    assert_eq!(s.steal, 8);
    assert_eq!(s.total(), 36);
    assert_eq!(s.active(), 36 - 4 - 5);
}

#[test]
fn test_per_core_cpu_stats_parsing() {
    let line = "cpu0  1234 5678 9012 3456 7890 1234 5678 9012";
    let per_core = PerCoreCpuStats::parse_from_proc_stat_line(line).unwrap();
    assert_eq!(per_core.core_id, 0);
    assert_eq!(per_core.stats.user, 1234);
    assert_eq!(per_core.stats.nice, 5678);
    assert_eq!(per_core.stats.system, 9012);
    assert_eq!(per_core.stats.idle, 3456);

    let line2 = "cpu12  100 200 300 400";
    let per_core2 = PerCoreCpuStats::parse_from_proc_stat_line(line2).unwrap();
    assert_eq!(per_core2.core_id, 12);

    assert!(PerCoreCpuStats::parse_from_proc_stat_line("cpu  1 2 3 4").is_err());
    assert!(PerCoreCpuStats::parse_from_proc_stat_line("notcpu0 1 2 3 4").is_err());
}

#[test]
fn test_memory_info_parsing() {
    let content = r#"
MemTotal:       16384000 kB
MemFree:         4096000 kB
MemAvailable:   12288000 kB
Buffers:         1024000 kB
Cached:          2048000 kB
SwapTotal:       8192000 kB
SwapFree:        6144000 kB
"#;
    let info = MemoryInfo::parse_meminfo_content(content).unwrap();
    assert_eq!(info.mem_total, 16_384_000 * 1024);
    assert_eq!(info.mem_free, 4_096_000 * 1024);
    assert_eq!(info.mem_available, 12_288_000 * 1024);
    assert_eq!(info.mem_buffers, 1_024_000 * 1024);
    assert_eq!(info.mem_cached, 2_048_000 * 1024);
    assert_eq!(info.swap_total, 8_192_000 * 1024);
    assert_eq!(info.swap_free, 6_144_000 * 1024);
}

#[test]
fn test_memory_info_fallback() {
    let content = r#"
MemTotal:       16384000 kB
MemFree:         4096000 kB
Buffers:         1024000 kB
Cached:          2048000 kB
SwapTotal:       8192000 kB
SwapFree:        6144000 kB
"#;
    let info = MemoryInfo::parse_meminfo_content(content).unwrap();
    let expected_available = (4_096_000 + 1_024_000 + 2_048_000) * 1024;
    assert_eq!(info.mem_available, expected_available);
}

#[test]
fn memory_sums_and_errors() {
    let gib = 1024 * 1024 * 1024u64;
    let info = MemoryInfo {
        mem_total: 16 * gib,
        mem_free: 4 * gib,
        mem_available: 12 * gib,
        mem_buffers: gib,
        mem_cached: 2 * gib,
        swap_total: 8 * gib,
        swap_free: 6 * gib,
    };
    assert_eq!(info.mem_used(), 4 * gib);
    assert_eq!(info.swap_used(), 2 * gib);
    assert_eq!(info.total_used_with_swap(), 6 * gib);
    assert_eq!(info.total_capacity_with_swap(), 24 * gib);
    match MemoryInfo::parse_meminfo_content("MemTotal: lots kB\n") {
        Err(SensorError::Parse { message, .. }) => assert_eq!(message, "Failed to parse MemTotal value"),
        _ => panic!("expected a parse error"),
    }
    assert!(MemoryInfo::parse_meminfo_content("MemTotal: 18446744073709551615 kB").is_err());
    let odd = MemoryInfo::parse_meminfo_content("HugePages_Total: 0\nlonely\n\r\nMemTotal:: 2 kB").unwrap();
    assert_eq!(odd.mem_total, 2048);
}

#[test]
fn words_and_numbers() {
    assert_eq!(split_words("  a\tbb \u{a0} c  "), vec!["a".to_string(), "bb".to_string(), "c".to_string()]);
    assert!(split_words(" \n ").is_empty());
    assert_eq!(parse_u64("+42"), Some(42));
    assert_eq!(parse_u64("18446744073709551615"), Some(u64::MAX));
    assert_eq!(parse_u64("18446744073709551616"), None);
    assert_eq!(parse_u64(""), None);
    assert_eq!(parse_u64("+"), None);
    assert_eq!(parse_u64("-1"), None);
    assert_eq!(parse_u64("1x"), None);
}

#[test]
fn config_defaults() {
    let icons = IconConfig::default();
    assert_eq!(icons.cpu, "\u{f4bc}");
    assert_eq!(icons.gpu, "\u{f08ae}");
    let colors = ColorConfig::default();
    assert_eq!(colors.icon_color, None);
    assert_eq!(colors.status_colors.critical, None);
    let v = VisualConfig::default();
    assert_eq!(v.sparkline_length, 8);
    assert_eq!(v.gauge_width, 12);
    assert_eq!(v.sparkline_style, SparklineStyle::Blocks);
    assert_eq!(v.gauge_style, GaugeStyle::Blocks);
    assert_eq!(v.tooltip_detail, TooltipDetail::Detailed);
    assert_eq!(v.top_processes_count, 10);
}

#[test]
fn per_core_bad_core_number() {
    match PerCoreCpuStats::parse_from_proc_stat_line("cpux 1 2 3 4") {
        Err(SensorError::Parse { message, source }) => {
            assert_eq!(message, "Failed to parse core ID");
            assert!(source.is_some());
        }
        _ => panic!("expected a parse error"),
    }
    assert!(PerCoreCpuStats::parse_from_proc_stat_line("cpu3 1 2").is_err());
}
