use waysensor::cache::{CacheStrategy, ErrorRecovery, MetricsReader, SensorReader};
use waysensor::error::SensorError;
use waysensor::facade::{MemoryInfo, VoltageInfo};
use waysensor::gpu::{build_tooltip, format_text, DisplayFlags, GpuDeviceInfo, GpuError, OutputFormat, ThermalAlert};
use waysensor::metrics::{
    dispatch, parse_metrics_from_bytes, parse_v1_metrics, parse_v2_metrics, GpuMetrics,
    GpuMetricsV1, Header, ThrottleStatus,
};

fn put_u16(buf: &mut [u8], off: usize, v: u16) {
    buf[off..off + 2].copy_from_slice(&v.to_le_bytes());
}

fn put_u64(buf: &mut [u8], off: usize, v: u64) {
    buf[off..off + 8].copy_from_slice(&v.to_le_bytes());
}

fn blob(size: u16, format: u8, content: u8, len: usize) -> Vec<u8> {
    let mut b = vec![0u8; len];
    b[0..2].copy_from_slice(&size.to_le_bytes());
    b[2] = format;
    b[3] = content;
    b
}

fn parse_message(r: Result<GpuMetrics, SensorError>) -> String {
    match r {
        Err(SensorError::Parse { message, .. }) => message,
        other => panic!("expected a parse error, got {:?}", other.map(|_| ())),
    }
}

fn sample_v1() -> GpuMetricsV1 {
    GpuMetricsV1 {
        header: Header { structure_size: 100, format_revision: 1, content_revision: 0 },
        system_clock_counter: 0,
        temperature_edge: 60,
        temperature_hotspot: 65,
        temperature_mem: 55,
        temperature_vrgfx: 50,
        temperature_vrsoc: 45,
        temperature_vrmem: 40,
        average_gfx_activity: 80,
        average_umc_activity: 50,
        average_mm_activity: 30,
        average_socket_power: 200,
        energy_accumulator: 0,
        average_gfxclk_frequency: 1500,
        average_socclk_frequency: 800,
        average_uclk_frequency: 1000,
        average_vclk0_frequency: 600,
        average_dclk0_frequency: 600,
        average_vclk1_frequency: 0,
        average_dclk1_frequency: 0,
        current_gfxclk: 1500,
        current_socclk: 800,
        current_uclk: 1000,
        current_vclk0: 600,
        current_dclk0: 600,
        current_vclk1: 0,
        current_dclk1: 0,
        throttle_status: 0,
        current_fan_speed: 50,
        pcie_link_width: 16,
        pcie_link_speed: 4,
        gfx_voltage: None,
        soc_voltage: None,
        mem_voltage: None,
        indep_throttle_status: None,
        current_socket_power: None,
        vcn_activity: None,
    }
}

fn efficiency(ratio: Option<(u16, u16)>) -> f64 {
    match ratio {
        Some((a, b)) => a as f64 / b as f64,
        None => 0.0,
    }
}

#[test]
fn test_header_version() {
    let header = Header { structure_size: 100, format_revision: 1, content_revision: 2 };
    assert_eq!(header.version(), "v1.2");
    assert!(header.is_supported());
}

#[test]
fn header_support_table_and_sizes() {
    let h = |f: u8, c: u8| Header { structure_size: 96, format_revision: f, content_revision: c };
    for c in 0..=3 {
        assert!(h(1, c).is_supported());
    }
    assert!(h(2, 0).is_supported());
    assert!(h(2, 1).is_supported());
    assert!(!h(1, 4).is_supported());
    assert!(!h(2, 2).is_supported());
    assert!(!h(3, 0).is_supported());
    assert!(!h(0, 0).is_supported());
    assert_eq!(h(1, 0).expected_size(), Some(96));
    assert_eq!(h(1, 3).expected_size(), Some(108));
    assert_eq!(h(2, 1).expected_size(), Some(124));
    assert_eq!(h(3, 0).expected_size(), None);
    assert_eq!(h(12, 34).version(), "v12.34");
}

#[test]
fn header_decode_encode_round_trip() {
    let h = Header { structure_size: 0x0304, format_revision: 2, content_revision: 1 };
    let bytes = h.encode();
    assert_eq!(bytes, [0x04, 0x03, 2, 1]);
    assert_eq!(Header::decode(&bytes).unwrap(), h);
    match Header::decode(&[1, 2]) {
        Err(SensorError::Parse { message, .. }) => assert_eq!(message, "Insufficient data for header"),
        _ => panic!("expected a parse error"),
    }
    match Header::decode(&[0, 0, 1, 0]) {
        Err(SensorError::Parse { message, .. }) => assert_eq!(message, "Invalid structure size: 0"),
        _ => panic!("expected a parse error"),
    }
    match Header::decode(&[0x01, 0x04, 1, 0]) {
        Err(SensorError::Parse { message, .. }) => assert_eq!(message, "Invalid structure size: 1025"),
        _ => panic!("expected a parse error"),
    }
    let max = Header::decode(&[0x00, 0x04, 1, 0]).unwrap();
    assert_eq!(max.structure_size, 1024);
}

#[test]
fn test_throttle_status() {
    let throttle = ThrottleStatus(0x10001);
    assert!(throttle.is_throttling());
    assert!(!throttle.is_thermal_throttling());
    assert!(throttle.is_power_throttling());
    let flags = throttle.active_flags();
    assert!(flags.contains(&"PROCHOT_CPU".to_string()));
    assert!(flags.contains(&"PPT0".to_string()));
}

#[test]
fn throttle_named_cases() {
    assert!(!ThrottleStatus(0).is_throttling());
    let thermal = ThrottleStatus(1 << 32);
    assert!(thermal.is_thermal_throttling());
    assert!(!thermal.is_power_throttling());
    assert_eq!(thermal.active_flags(), vec!["THM_CORE".to_string()]);
    assert_eq!(
        ThrottleStatus((1 << 16) | 1).active_flags(),
        vec!["PROCHOT_CPU".to_string(), "PPT0".to_string()]
    );
    let unknown = ThrottleStatus(1 << 40);
    assert!(unknown.is_throttling());
    assert!(unknown.active_flags().is_empty());
    assert_eq!(unknown.active_count(), 0);
    assert_eq!(ThrottleStatus(u64::MAX).active_count(), 13);
}

#[test]
fn test_power_efficiency_calculation() {
    let m = GpuMetrics::V1(sample_v1());
    assert_eq!(efficiency(m.power_efficiency_ratio()), 80.0 / 200.0);
    assert_eq!(efficiency(m.power_efficiency_ratio()), 0.4);
    assert_eq!(efficiency(m.thermal_efficiency_ratio()), 80.0 / 60.0);
    let mut idle = sample_v1();
    idle.average_socket_power = 0;
    idle.temperature_edge = 0;
    let m = GpuMetrics::V1(idle);
    assert_eq!(m.power_efficiency_ratio(), None);
    assert_eq!(efficiency(m.power_efficiency_ratio()), 0.0);
    assert_eq!(efficiency(m.thermal_efficiency_ratio()), 0.0);
}

#[test]
fn end_to_end_v1_temperature() {
    let mut b = blob(96, 1, 0, 96);
    b[12] = 60;
    b[13] = 0;
    let m = parse_metrics_from_bytes(&b).unwrap();
    let (t, label) = m.get_temperature();
    assert_eq!(t, 60);
    assert_eq!(label, "Edge");
}

#[test]
fn header_only_fails_with_insufficient_data() {
    for h in [[96u8, 0, 1, 0], [120, 0, 2, 1], [4, 0, 1, 3], [1, 0, 2, 0]] {
        let msg = parse_message(parse_metrics_from_bytes(&h));
        assert!(msg.starts_with("Insufficient data"), "{msg}");
    }
    assert_eq!(parse_message(parse_metrics_from_bytes(&[0, 0, 9, 9])), "Invalid structure size: 0");
    assert_eq!(parse_message(parse_metrics_from_bytes(&[0xff, 0xff, 2, 1])), "Invalid structure size: 65535");
    assert_eq!(parse_message(parse_metrics_from_bytes(&[96, 0, 3, 0])), "Unsupported format version: v3.0");
    let msg = parse_message(parse_metrics_from_bytes(&[1, 2, 3]));
    assert_eq!(msg, "Insufficient data for header");
}

#[test]
fn bad_sizes_fail() {
    assert_eq!(parse_message(parse_metrics_from_bytes(&blob(0, 1, 0, 96))), "Invalid structure size: 0");
    assert_eq!(parse_message(parse_metrics_from_bytes(&blob(2000, 1, 0, 96))), "Invalid structure size: 2000");
    for len in [4usize, 5, 2000] {
        assert_eq!(parse_message(parse_metrics_from_bytes(&blob(1025, 7, 7, len))), "Invalid structure size: 1025");
    }
    assert_eq!(
        parse_message(parse_metrics_from_bytes(&blob(200, 1, 0, 96))),
        "Insufficient data for structure size 200"
    );
    assert_eq!(
        parse_message(parse_metrics_from_bytes(&blob(90, 1, 0, 96))),
        "Insufficient data for v1.x metrics"
    );
    assert_eq!(
        parse_message(parse_metrics_from_bytes(&blob(100, 2, 0, 100))),
        "Insufficient data for v2.x metrics"
    );
}

#[test]
fn unsupported_versions_fail() {
    for (f, c) in [(1u8, 4u8), (2, 2), (3, 0), (0, 0), (255, 255)] {
        let msg = parse_message(parse_metrics_from_bytes(&blob(200, f, c, 200)));
        assert_eq!(msg, format!("Unsupported format version: v{f}.{c}"));
        let h = Header { structure_size: 200, format_revision: f, content_revision: c };
        let msg = parse_message(dispatch(h, &[0u8; 196]));
        assert_eq!(msg, format!("Unsupported format version: v{f}.{c}"));
        for len in [4usize, 10, 100] {
            let msg = parse_message(parse_metrics_from_bytes(&blob(200, f, c, len)));
            assert_eq!(msg, format!("Unsupported format version: v{f}.{c}"));
        }
    }
}

#[test]
fn v1_optional_fields_by_revision() {
    let h0 = Header { structure_size: 108, format_revision: 1, content_revision: 0 };
    let m0 = parse_v1_metrics(h0, &[7u8; 104]).unwrap();
    assert_eq!(m0.gfx_voltage, None);
    assert_eq!(m0.soc_voltage, None);
    assert_eq!(m0.mem_voltage, None);
    assert_eq!(m0.indep_throttle_status, None);
    assert_eq!(m0.current_socket_power, None);
    assert_eq!(m0.vcn_activity, None);

    let mut body = vec![0u8; 104];
    put_u16(&mut body, 78, 850);
    put_u16(&mut body, 80, 900);
    put_u16(&mut body, 82, 1350);
    put_u64(&mut body, 84, 0x1_0000_0001);
    put_u16(&mut body, 92, 42);
    for i in 0..4 {
        put_u16(&mut body, 94 + 2 * i, 10 + i as u16);
    }
    let h3 = Header { structure_size: 108, format_revision: 1, content_revision: 3 };
    let m3 = parse_v1_metrics(h3, &body).unwrap();
    assert_eq!(m3.gfx_voltage, Some(850));
    assert_eq!(m3.soc_voltage, Some(900));
    assert_eq!(m3.mem_voltage, Some(1350));
    assert_eq!(m3.indep_throttle_status, Some(0x1_0000_0001));
    assert_eq!(m3.current_socket_power, Some(42));
    assert_eq!(m3.vcn_activity, Some([10, 11, 12, 13]));

    let short = parse_v1_metrics(h3, &body[..96]).unwrap();
    assert_eq!(short.mem_voltage, Some(1350));
    assert_eq!(short.current_socket_power, None);
    assert_eq!(short.vcn_activity, None);
}

#[test]
fn v1_fields_little_endian() {
    let mut b = blob(96, 1, 0, 96);
    put_u64(&mut b, 4, 0x0102_0304_0506_0708);
    put_u16(&mut b, 4 + 26, 0xABCD);
    put_u16(&mut b, 4 + 50, 2100);
    put_u64(&mut b, 4 + 64, 1 << 33);
    put_u16(&mut b, 4 + 72, 255);
    let m = parse_metrics_from_bytes(&b).unwrap();
    assert_eq!(m.get_system_clock_counter(), 0x0102_0304_0506_0708);
    assert_eq!(m.get_power(), 0xABCD);
    assert_eq!(m.get_frequency(), 2100);
    assert_eq!(m.get_throttle_status(), 1 << 33);
    assert_eq!(m.get_fan_speed(), (100, true));
    assert_eq!(m.get_header(), Header { structure_size: 96, format_revision: 1, content_revision: 0 });
}

#[test]
fn v2_layout_and_breakdowns() {
    let mut body = vec![0u8; 122];
    put_u16(&mut body, 8, 70);
    put_u16(&mut body, 10, 65);
    for i in 0..8 {
        put_u16(&mut body, 16 + 2 * i, 40 + i as u16);
        put_u16(&mut body, 54 + 2 * i, 5 + i as u16);
    }
    put_u16(&mut body, 32, 51);
    put_u16(&mut body, 34, 52);
    put_u16(&mut body, 36, 33);
    put_u16(&mut body, 40, 25);
    put_u16(&mut body, 112, 128);
    put_u16(&mut body, 114, 700);
    put_u16(&mut body, 116, 800);
    put_u16(&mut body, 118, 900);
    let h = Header { structure_size: 124, format_revision: 2, content_revision: 1 };
    let v2 = parse_v2_metrics(h, &body).unwrap();
    assert_eq!(v2.temperature_core, [40, 41, 42, 43, 44, 45, 46, 47]);
    assert_eq!(v2.voltage_soc, Some(700));
    let m = GpuMetrics::V2(v2);
    assert_eq!(m.get_temperature(), (70, "GFX".to_string()));
    let temps = m.get_all_temperatures();
    assert_eq!(temps.len(), 12);
    assert_eq!(temps[2], ("Core0".to_string(), 40));
    assert_eq!(temps[11], ("L3_1".to_string(), 52));
    let power = m.get_power_breakdown();
    assert_eq!(power[0], ("Socket".to_string(), 25));
    assert_eq!(power[11], ("Core7".to_string(), 12));
    let freqs = m.get_all_frequencies();
    assert_eq!(freqs.len(), 22);
    assert_eq!(freqs[12].0, "Core0_CLK");
    assert_eq!(freqs[21].0, "L3_1_CLK");
    assert_eq!(m.get_activity(), 33);
    assert_eq!(m.get_activity_breakdown().len(), 2);
    assert_eq!(m.get_fan_speed(), (50, true));
    assert_eq!(
        m.get_voltage_info(),
        Some(VoltageInfo { core_voltage: Some(800), soc_voltage: Some(700), memory_voltage: Some(900) })
    );
    let rev0 = parse_v2_metrics(Header { content_revision: 0, ..h }, &body).unwrap();
    assert_eq!(rev0.voltage_gfx, None);
    let short = parse_v2_metrics(h, &body[..120]).unwrap();
    assert_eq!(short.voltage_soc, None);
}

#[test]
fn v1_breakdowns() {
    let mut v = sample_v1();
    v.current_socket_power = Some(180);
    v.vcn_activity = Some([1, 2, 3, 4]);
    let m = GpuMetrics::V1(v);
    assert_eq!(m.get_power(), 180);
    assert_eq!(
        m.get_power_breakdown(),
        vec![("Socket".to_string(), 200), ("Current Socket".to_string(), 180)]
    );
    let act = m.get_activity_breakdown();
    assert_eq!(act.len(), 7);
    assert_eq!(act[3], ("VCN0".to_string(), 1));
    assert_eq!(act[6], ("VCN3".to_string(), 4));
    let temps = m.get_all_temperatures();
    assert_eq!(temps[5], ("VR Mem".to_string(), 40));
    assert_eq!(m.get_all_frequencies().len(), 14);
    assert_eq!(
        m.get_memory_info(),
        Some(MemoryInfo {
            total_vram: None,
            used_vram: None,
            memory_frequency: Some(1000),
            memory_utilization: Some(50),
        })
    );
}

#[test]
fn fan_percent_rounds_down() {
    for raw in 0..=u16::MAX {
        let mut v = sample_v1();
        v.current_fan_speed = raw;
        let exact = (raw as u32 * 100 / 255) as u16;
        let expected = if raw > 100 { exact } else { raw };
        assert_eq!(GpuMetrics::V1(v).get_fan_speed(), (expected, raw > 0), "raw = {raw}");
        // A float quotient agrees, except that it may fall just short of an exact one.
        let float = ((raw as f64 / 255.0) * 100.0) as u16;
        assert!(float == exact || (float + 1 == exact && raw as u32 * 100 % 255 == 0), "raw = {raw}");
    }
    let mut v = sample_v1();
    v.current_fan_speed = 255;
    assert_eq!(GpuMetrics::V1(v).get_fan_speed(), (100, true));
    v.current_fan_speed = 1173;
    assert_eq!(GpuMetrics::V1(v).get_fan_speed(), (460, true));
    v.current_fan_speed = 0;
    assert_eq!(GpuMetrics::V1(v).get_fan_speed(), (0, false));
}

#[test]
fn metrics_test_cache_strategies() {
    let strategies = [
        CacheStrategy::Disabled,
        CacheStrategy::Basic { max_age: 500 },
        CacheStrategy::Aggressive { max_age: 1000, change_threshold: 5 },
        CacheStrategy::MemoryMapped,
    ];
    for strategy in &strategies {
        let reader = MetricsReader::with_cache_strategy(*strategy);
        assert_eq!(reader.cache_strategy, *strategy);
    }
    assert_eq!(MetricsReader::new().cache_strategy, CacheStrategy::Basic { max_age: 500 });
}

#[test]
fn basic_cache_serves_within_max_age() {
    let mut reader = MetricsReader::with_cache_strategy(CacheStrategy::Basic { max_age: 500 });
    let mut b = blob(96, 1, 0, 96);
    b[12] = 61;
    assert!(reader.check_cache(1000).is_none());
    let first = reader.complete_read(&b, 1000).unwrap();
    let cached = reader.check_cache(1499).expect("served from cache");
    assert_eq!(format!("{:?}", cached), format!("{:?}", first));
    assert!(reader.check_cache(1500).is_none());
    assert_eq!(reader.cache_stats(1200), Some((1, 200)));
    reader.complete_read(&b, 1600).unwrap();
    assert_eq!(reader.cache_stats(1600), Some((2, 0)));
    let before = format!("{:?}", reader);
    assert!(reader.complete_read(&b[..50], 1700).is_err());
    assert_eq!(format!("{:?}", reader), before);
    reader.invalidate_cache();
    assert!(reader.check_cache(1601).is_none());
}

#[test]
fn disabled_cache_never_serves() {
    let mut reader = MetricsReader::with_cache_strategy(CacheStrategy::Disabled);
    let b = blob(96, 1, 0, 96);
    reader.complete_read(&b, 10).unwrap();
    assert!(reader.check_cache(10).is_none());
    assert_eq!(reader.cache_stats(10), None);
    assert_eq!(reader.last_successful_read, Some(10));
}

#[test]
fn recovery_masks_a_few_recent_failures() {
    let m = GpuMetrics::V1(sample_v1());
    let mut rec = ErrorRecovery::new();
    assert!(rec.record_failure(0).is_none());
    rec.record_success(m, 1000);
    assert_eq!(rec.consecutive_errors, 0);
    for _ in 0..3 {
        assert!(rec.record_failure(5000).is_some());
    }
    assert!(rec.record_failure(5000).is_none());
    rec.record_success(m, 20_000);
    assert!(rec.record_failure(29_999).is_some());
    assert!(rec.record_failure(30_000).is_none());
    assert_eq!(rec.is_throttling(), Some(false));
    rec.clear();
    assert_eq!(rec.is_throttling(), None);
}

#[test]
fn test_thermal_alert_ordering() {
    assert!(ThermalAlert::Normal < ThermalAlert::Warning);
    assert!(ThermalAlert::Warning < ThermalAlert::Critical);
    assert!(ThermalAlert::Critical < ThermalAlert::Emergency);
}

#[test]
fn thermal_alert_ranks() {
    assert!(ThermalAlert::Emergency.is_above(&ThermalAlert::Elevated));
    assert!(!ThermalAlert::Normal.is_above(&ThermalAlert::Normal));
    assert_eq!(ThermalAlert::Critical.rank(), 3);
}

#[test]
fn gpu_error_maps_to_sensor_error() {
    let e: SensorError = GpuError::MetricsParsingError { reason: "bad".to_string() }.into();
    assert!(matches!(e, SensorError::Parse { ref message, .. } if message == "bad"));
    let e: SensorError = GpuError::MetricsFileError { path: "/x".to_string(), reason: "gone".to_string() }.into();
    assert!(matches!(e, SensorError::Unavailable { is_temporary: false, .. }));
    let e: SensorError = GpuError::HardwareError { reason: "hot".to_string() }.into();
    assert!(matches!(e, SensorError::InvalidData { .. }));
}

#[test]
fn display_texts() {
    let m = GpuMetrics::V1(sample_v1());
    let flags = DisplayFlags::new();
    assert_eq!(format_text(&m, &OutputFormat::Compact, &flags), " 60\u{b0}C 200W  80%");
    assert_eq!(format_text(&m, &OutputFormat::Minimal, &flags), " 60\u{b0}C");
    assert_eq!(format_text(&m, &OutputFormat::Power, &flags), "200W");
    assert_eq!(format_text(&m, &OutputFormat::Activity, &flags), " 80%");
    assert_eq!(format_text(&m, &OutputFormat::Performance, &flags), "1500MHz 200W");
    assert_eq!(format_text(&m, &OutputFormat::Detailed, &flags), " 60\u{b0}C 200W  80% 1500MHz  50%");
    let custom = OutputFormat::Custom(vec!["power".to_string(), "bogus".to_string(), "frequency".to_string()]);
    assert_eq!(format_text(&m, &custom, &flags), "200W 1500MHz");
    assert_eq!(format_text(&m, &OutputFormat::Custom(vec![]), &flags), " 60\u{b0}C");
    let mut none = flags;
    none.apply(Some(false), Some(false), Some(false), None, None, None);
    assert_eq!(format_text(&m, &OutputFormat::Compact, &none), " 80%");
    let mut ordered = flags;
    let order = vec!["frequency".to_string(), "power".to_string(), "nope".to_string()];
    ordered.apply(Some(true), None, None, None, None, Some(&order));
    assert_eq!(
        ordered,
        DisplayFlags {
            show_temperature: false,
            show_power: true,
            show_utilization: false,
            show_memory: false,
            show_frequency: true,
        }
    );
    assert_eq!(format_text(&m, &OutputFormat::Compact, &ordered), "200W 1500MHz");
}

#[test]
fn tooltip_lists_readings_and_notices() {
    let info = GpuDeviceInfo {
        card_name: "card0".to_string(),
        device_id: "0x73bf".to_string(),
        vendor_id: "0x1002".to_string(),
        driver_version: None,
        memory_size: None,
        pci_slot: None,
        supported_features: Vec::new(),
    };
    let m = GpuMetrics::V1(sample_v1());
    assert_eq!(
        build_tooltip(&info, &m, 0),
        "GPU: card0\\nDevice: 0x73bf (0x1002)\\nTemperature (Edge): 60\u{b0}C\\nPower: 200W\\nActivity: 80%\\nFrequency: 1500MHz\\nFan Speed: 50%\\n"
    );
    let mut hot = sample_v1();
    hot.throttle_status = 1 << 32;
    hot.current_fan_speed = 0;
    assert_eq!(
        build_tooltip(&info, &GpuMetrics::V1(hot), 2),
        "GPU: card0\\nDevice: 0x73bf (0x1002)\\nTemperature (Edge): 60\u{b0}C\\nPower: 200W\\nActivity: 80%\\nFrequency: 1500MHz\\n\\n\u{26a0}\u{fe0f} Throttling Active\\n\\n\u{26a0}\u{fe0f} Recent errors: 2\\n"
    );
}

#[test]
fn sensor_reader_masks_then_propagates() {
    let mut r = SensorReader::new(CacheStrategy::Basic { max_age: 100 });
    let good = blob(96, 1, 0, 96);
    assert!(r.serve_cached(0).is_none());
    let first = r.finish_read(Ok(&good[..]), 0).unwrap();
    assert!(r.serve_cached(50).is_some());
    assert!(r.serve_cached(150).is_none());
    let missing = SensorError::io(waysensor::error::IoErrorKind::NotFound, "gone");
    let masked = r.finish_read(Err(missing.clone()), 150).unwrap();
    assert_eq!(format!("{:?}", masked), format!("{:?}", first));
    assert_eq!(r.recovery.consecutive_errors, 1);
    assert_eq!(r.recovery.last_error_time, Some(150));
    assert!(r.finish_read(Ok(&good[..10]), 200).is_ok());
    assert!(r.finish_read(Ok(&good[..10]), 300).is_ok());
    assert!(matches!(r.finish_read(Err(missing), 400), Err(SensorError::Io { .. })));
    assert_eq!(r.recovery.consecutive_errors, 4);
    assert_eq!(r.recovery.last_error_time, Some(400));
    r.invalidate();
    assert!(r.finish_read(Ok(&good[..10]), 500).is_err());
    assert!(r.finish_read(Ok(&good[..]), 600).is_ok());
    assert_eq!(r.recovery.consecutive_errors, 0);
    assert_eq!(r.recovery.last_error_time, None);
    assert_eq!(r.reader.cache_stats(600), Some((1, 0)));
}
