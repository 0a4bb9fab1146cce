use msi_center::fan::{
    calculate_rpm, read_fan_rpm_from_ec, FanController, FanError, FanInfo, FanMode, SensorBytes,
};
use msi_center::ec::EcError;
use msi_center::sensor::{
    accept, celsius_from_millidegrees, degrees_from_millidegrees, is_cpu_monitor,
    is_gpu_monitor, read_cpu_temp_from_hwmon, read_gpu_temp_from_hwmon, read_millidegrees,
    source_at, thermal_zone_path, FanInfoQuery, Monitor, Quantity, Reading, SensorProbe, SensorSource, HWMON_BASE_PATH, HWMON_NAME_FILE, HWMON_TEMP_FILE,
};

/// Runs a probe, answering each source from `read`, and lists the sources
/// that were asked.
fn run_probe(
    quantity: Quantity,
    read: &dyn Fn(SensorSource) -> Reading,
) -> (u8, Vec<SensorSource>) {
    let mut probe = SensorProbe::new(quantity);
    let mut asked = Vec::new();
    while let Some(source) = probe.pending() {
        asked.push(source);
        probe.supply(read(source));
    }
    (probe.value_or_zero(), asked)
}

fn cpu_sources() -> Vec<SensorSource> {
    vec![
        SensorSource::Coretemp,
        SensorSource::ThermalZone { zone: 0 },
        SensorSource::ThermalZone { zone: 1 },
        SensorSource::ThermalZone { zone: 2 },
        SensorSource::EcDirect { address: 0x68 },
        SensorSource::EcTransport { address: 0x68 },
    ]
}

#[test]
fn sources_in_order() {
    let listed: Vec<SensorSource> =
        (0..8u8).filter_map(|i| source_at(Quantity::CpuTemp, i)).collect();
    assert_eq!(listed, cpu_sources());
    let gpu: Vec<SensorSource> =
        (0..8u8).filter_map(|i| source_at(Quantity::GpuTemp, i)).collect();
    assert_eq!(
        gpu,
        vec![
            SensorSource::GpuHwmon,
            SensorSource::EcDirect { address: 0x80 },
            SensorSource::EcTransport { address: 0x80 },
        ]
    );
    assert_eq!(
        source_at(Quantity::CpuFan, 0),
        Some(SensorSource::EcDirect { address: 0xC8 })
    );
    assert_eq!(
        source_at(Quantity::CpuFan, 1),
        Some(SensorSource::EcDirect { address: 0xC9 })
    );
    assert_eq!(source_at(Quantity::CpuFan, 2), None);
    assert_eq!(
        source_at(Quantity::GpuFan, 0),
        Some(SensorSource::EcDirect { address: 0xCA })
    );
    assert_eq!(
        source_at(Quantity::GpuFan, 1),
        Some(SensorSource::EcDirect { address: 0xCB })
    );
    assert_eq!(
        source_at(Quantity::FanMode, 1),
        Some(SensorSource::EcTransport { address: 0xD4 })
    );
    assert_eq!(
        source_at(Quantity::CoolerBoost, 0),
        Some(SensorSource::EcDirect { address: 0x98 })
    );
    assert_eq!(source_at(Quantity::CoolerBoost, 2), None);
}

#[test]
fn first_source_wins() {
    let (value, asked) = run_probe(Quantity::CpuTemp, &|_| Reading::Millidegrees(47_900));
    assert_eq!(value, 47);
    assert_eq!(asked, vec![SensorSource::Coretemp]);
}

#[test]
fn probe_falls_through_to_the_first_accepted_source() {
    let read = |source: SensorSource| match source {
        SensorSource::ThermalZone { zone: 0 } => Reading::Millidegrees(15_000),
        SensorSource::ThermalZone { zone: 1 } => Reading::Millidegrees(110_000),
        SensorSource::ThermalZone { zone: 2 } => Reading::Millidegrees(61_500),
        SensorSource::EcDirect { .. } => Reading::Byte(99),
        _ => Reading::Unavailable,
    };
    let (value, asked) = run_probe(Quantity::CpuTemp, &read);
    assert_eq!(value, 61);
    assert_eq!(asked, cpu_sources()[..4].to_vec());
}

#[test]
fn probe_reaches_the_transport_last() {
    let read = |source: SensorSource| match source {
        SensorSource::EcTransport { address } => Reading::Byte(address),
        _ => Reading::Unavailable,
    };
    let (value, asked) = run_probe(Quantity::CpuTemp, &read);
    assert_eq!(value, 0x68);
    assert_eq!(asked, cpu_sources());
    let (value, asked) = run_probe(Quantity::GpuTemp, &read);
    assert_eq!(value, 0x80);
    assert_eq!(asked.len(), 3);
}

#[test]
fn nothing_readable_reports_zero() {
    for quantity in [
        Quantity::CpuTemp,
        Quantity::GpuTemp,
        Quantity::CpuFan,
        Quantity::GpuFan,
        Quantity::FanMode,
        Quantity::CoolerBoost,
    ] {
        let (value, _) = run_probe(quantity, &|_| Reading::Unavailable);
        assert_eq!(value, 0);
    }
}

#[test]
fn silent_tachometer_is_retried_at_the_next_register() {
    let read = |source: SensorSource| match source {
        SensorSource::EcDirect { address: 0xC8 } => Reading::Byte(0),
        SensorSource::EcDirect { address: 0xC9 } => Reading::Byte(42),
        _ => Reading::Unavailable,
    };
    let (value, asked) = run_probe(Quantity::CpuFan, &read);
    assert_eq!(value, 42);
    assert_eq!(asked.len(), 2);
    let (value, asked) = run_probe(Quantity::GpuFan, &|_| Reading::Byte(0));
    assert_eq!(value, 0);
    assert_eq!(
        asked,
        vec![
            SensorSource::EcDirect { address: 0xCA },
            SensorSource::EcDirect { address: 0xCB },
        ]
    );
}

#[test]
fn supply_without_pending_source_changes_nothing() {
    let mut probe = SensorProbe::new(Quantity::FanMode);
    probe.supply(Reading::Byte(2));
    assert_eq!(probe.pending(), None);
    let settled = probe;
    probe.supply(Reading::Byte(3));
    assert_eq!(probe, settled);
    assert_eq!(probe.value_or_zero(), 2);
}

#[test]
fn accepted_readings() {
    let zone = SensorSource::ThermalZone { zone: 1 };
    assert_eq!(accept(Quantity::CpuTemp, zone, Reading::Millidegrees(20_999)), None);
    assert_eq!(accept(Quantity::CpuTemp, zone, Reading::Millidegrees(21_000)), Some(21));
    assert_eq!(accept(Quantity::CpuTemp, zone, Reading::Millidegrees(109_999)), Some(109));
    assert_eq!(accept(Quantity::CpuTemp, zone, Reading::Millidegrees(110_000)), None);
    // far out of range: not mistaken for a plausible temperature
    assert_eq!(accept(Quantity::CpuTemp, zone, Reading::Millidegrees(300_000)), None);
    assert_eq!(accept(Quantity::CpuTemp, zone, Reading::Byte(50)), None);
    assert_eq!(
        accept(Quantity::CpuTemp, SensorSource::Coretemp, Reading::Millidegrees(15_000)),
        Some(15)
    );
    assert_eq!(
        accept(Quantity::GpuTemp, SensorSource::GpuHwmon, Reading::Millidegrees(72_499)),
        Some(72)
    );
    assert_eq!(accept(Quantity::GpuTemp, SensorSource::GpuHwmon, Reading::Unavailable), None);
    let direct = SensorSource::EcDirect { address: 0x68 };
    assert_eq!(accept(Quantity::CpuTemp, direct, Reading::Byte(0)), Some(0));
    assert_eq!(accept(Quantity::CpuFan, direct, Reading::Byte(0)), None);
    assert_eq!(accept(Quantity::CpuFan, direct, Reading::Byte(1)), Some(1));
    assert_eq!(accept(Quantity::CpuTemp, direct, Reading::Millidegrees(1000)), None);
}

#[test]
fn millidegrees_round_towards_zero_and_wrap_like_a_byte_cast() {
    for m in [
        0i32, 999, 1000, 47_900, 255_999, 256_000, 300_000, -1, -999, -1000, -5_000, -256_000,
        i32::MAX, i32::MIN,
    ] {
        assert_eq!(degrees_from_millidegrees(m), m / 1000, "{}", m);
        assert_eq!(celsius_from_millidegrees(m), (m / 1000) as u8, "{}", m);
    }
    assert_eq!(celsius_from_millidegrees(47_900), 47);
    assert_eq!(celsius_from_millidegrees(300_000), 44);
    assert_eq!(celsius_from_millidegrees(-5_000), 251);
}

#[test]
fn temperature_file_content() {
    assert_eq!(read_millidegrees("47900\n"), Reading::Millidegrees(47_900));
    assert_eq!(read_millidegrees(" -1500 "), Reading::Millidegrees(-1_500));
    assert_eq!(read_millidegrees("+20"), Reading::Millidegrees(20));
    assert_eq!(read_millidegrees("2147483647"), Reading::Millidegrees(i32::MAX));
    assert_eq!(read_millidegrees("-2147483648"), Reading::Millidegrees(i32::MIN));
    for text in ["", " ", "2147483648", "-2147483649", "4e4", "47 900", "-", "+", "--1"] {
        assert_eq!(read_millidegrees(text), Reading::Unavailable, "{:?}", text);
    }
}

#[test]
fn monitor_names() {
    assert!(is_cpu_monitor("coretemp\n"));
    assert!(is_cpu_monitor("  coretemp"));
    assert!(!is_cpu_monitor("Coretemp"));
    assert!(!is_cpu_monitor("coretemp2"));
    assert!(!is_cpu_monitor(""));
    assert!(is_gpu_monitor("nvidia\n"));
    assert!(is_gpu_monitor("AMDGPU"));
    assert!(is_gpu_monitor("nouveau"));
    assert!(is_gpu_monitor("my-Nvidia-card"));
    assert!(!is_gpu_monitor("coretemp"));
    assert!(!is_gpu_monitor("amd"));
}

#[test]
fn sensor_paths() {
    assert_eq!(HWMON_BASE_PATH, "/sys/class/hwmon");
    assert_eq!(HWMON_NAME_FILE, "name");
    assert_eq!(HWMON_TEMP_FILE, "temp1_input");
    assert_eq!(thermal_zone_path(0), "/sys/class/thermal/thermal_zone0/temp");
    assert_eq!(thermal_zone_path(2), "/sys/class/thermal/thermal_zone2/temp");
    assert_eq!(thermal_zone_path(17), "/sys/class/thermal/thermal_zone17/temp");
}

#[test]
fn tachometer_scaling() {
    assert_eq!(read_fan_rpm_from_ec(0), (0, 0));
    assert_eq!(read_fan_rpm_from_ec(1), (100, 0));
    assert_eq!(read_fan_rpm_from_ec(3), (300, 2));
    assert_eq!(read_fan_rpm_from_ec(45), (4500, 30));
    assert_eq!(read_fan_rpm_from_ec(75), (7500, 50));
    assert_eq!(read_fan_rpm_from_ec(149), (14900, 99));
    assert_eq!(read_fan_rpm_from_ec(150), (15000, 100));
    assert_eq!(read_fan_rpm_from_ec(151), (15100, 100));
    assert_eq!(read_fan_rpm_from_ec(255), (25500, 100));
    assert_eq!(calculate_rpm(0), 0);
    assert_eq!(calculate_rpm(37), 3700);
}

#[test]
fn tachometer_percent_against_single_precision() {
    for raw in 1..=255u8 {
        let float = ((raw as f32 / 150.0) * 100.0).clamp(0.0, 100.0) as u8;
        let (rpm, percent) = read_fan_rpm_from_ec(raw);
        assert_eq!(percent, float, "raw {}", raw);
        assert_eq!(rpm, raw as u32 * 100);
    }
}

#[test]
fn fan_info_composition() {
    let fan = FanController::new();
    let info = fan.get_fan_info(SensorBytes {
        cpu_temp: 47,
        gpu_temp: 52,
        cpu_fan: 45,
        gpu_fan: 0,
        fan_mode: 0x13,
        cooler_boost: 0xA5,
    });
    assert_eq!(
        info,
        FanInfo {
            cpu_fan_rpm: 4500,
            gpu_fan_rpm: 0,
            cpu_fan_percent: 30,
            gpu_fan_percent: 0,
            cpu_temp: 47,
            gpu_temp: 52,
            fan_mode: FanMode::Advanced,
            cooler_boost: true,
        }
    );
    let quiet = fan.get_fan_info(SensorBytes {
        cpu_temp: 0,
        gpu_temp: 0,
        cpu_fan: 200,
        gpu_fan: 150,
        fan_mode: 0xF7,
        cooler_boost: 0x7F,
    });
    assert_eq!(quiet.fan_mode, FanMode::Auto);
    assert!(!quiet.cooler_boost);
    assert_eq!(quiet.cpu_fan_percent, 100);
    assert_eq!(quiet.cpu_fan_rpm, 20000);
    assert_eq!(quiet.gpu_fan_percent, 100);
}

#[test]
fn fan_error_messages() {
    assert_eq!(FanError::InvalidSpeed(101).to_string(), "Invalid fan speed: 101");
    assert_eq!(FanError::InvalidSpeed(7).to_string(), "Invalid fan speed: 7");
    assert_eq!(
        FanError::EcError(EcError::NotSupported).to_string(),
        "EC error: EC not found or not supported"
    );
    assert_eq!(FanError::FanNotFound("fan3".to_string()).to_string(), "Fan not found: fan3");
    assert_eq!(
        FanError::HwmonError("gone".to_string()).to_string(),
        "Hwmon interface error: gone"
    );
}

/// Runs a whole query, answering each source from `read`, and lists the
/// sources that were asked.
fn run_query(read: &dyn Fn(SensorSource) -> Reading) -> (SensorBytes, Vec<SensorSource>) {
    let mut query = FanInfoQuery::new();
    let mut asked = Vec::new();
    while let Some(source) = query.pending() {
        asked.push(source);
        query.supply(read(source));
    }
    (query.bytes(), asked)
}

#[test]
fn query_with_nothing_readable_asks_every_source_once() {
    let (bytes, asked) = run_query(&|_| Reading::Unavailable);
    assert_eq!(
        bytes,
        SensorBytes { cpu_temp: 0, gpu_temp: 0, cpu_fan: 0, gpu_fan: 0, fan_mode: 0, cooler_boost: 0 }
    );
    let mut expected = cpu_sources();
    expected.extend([
        SensorSource::GpuHwmon,
        SensorSource::EcDirect { address: 0x80 },
        SensorSource::EcTransport { address: 0x80 },
        SensorSource::EcDirect { address: 0xC8 },
        SensorSource::EcDirect { address: 0xC9 },
        SensorSource::EcDirect { address: 0xCA },
        SensorSource::EcDirect { address: 0xCB },
        SensorSource::EcDirect { address: 0xD4 },
        SensorSource::EcTransport { address: 0xD4 },
        SensorSource::EcDirect { address: 0x98 },
        SensorSource::EcTransport { address: 0x98 },
    ]);
    assert_eq!(asked, expected);
}

#[test]
fn query_asks_no_more_than_it_needs() {
    let read = |source: SensorSource| match source {
        SensorSource::Coretemp => Reading::Millidegrees(55_000),
        SensorSource::GpuHwmon => Reading::Millidegrees(61_000),
        SensorSource::EcDirect { address } => Reading::Byte(address),
        _ => Reading::Unavailable,
    };
    let (bytes, asked) = run_query(&read);
    assert_eq!(
        bytes,
        SensorBytes {
            cpu_temp: 55,
            gpu_temp: 61,
            cpu_fan: 0xC8,
            gpu_fan: 0xCA,
            fan_mode: 0xD4,
            cooler_boost: 0x98,
        }
    );
    assert_eq!(
        asked,
        vec![
            SensorSource::Coretemp,
            SensorSource::GpuHwmon,
            SensorSource::EcDirect { address: 0xC8 },
            SensorSource::EcDirect { address: 0xCA },
            SensorSource::EcDirect { address: 0xD4 },
            SensorSource::EcDirect { address: 0x98 },
        ]
    );
    let info = FanController::new().get_fan_info(bytes);
    assert_eq!(info.cpu_temp, 55);
    assert_eq!(info.fan_mode, FanMode::Auto);
    assert!(info.cooler_boost);
    assert_eq!(info.cpu_fan_percent, 100);
}

#[test]
fn query_agrees_with_single_probes() {
    let read = |source: SensorSource| match source {
        SensorSource::ThermalZone { zone: 1 } => Reading::Millidegrees(48_000),
        SensorSource::EcTransport { address } => Reading::Byte(address.wrapping_add(1)),
        SensorSource::EcDirect { address: 0xCB } => Reading::Byte(7),
        _ => Reading::Unavailable,
    };
    let (bytes, _) = run_query(&read);
    assert_eq!(bytes.cpu_temp, run_probe(Quantity::CpuTemp, &read).0);
    assert_eq!(bytes.gpu_temp, run_probe(Quantity::GpuTemp, &read).0);
    assert_eq!(bytes.cpu_fan, run_probe(Quantity::CpuFan, &read).0);
    assert_eq!(bytes.gpu_fan, run_probe(Quantity::GpuFan, &read).0);
    assert_eq!(bytes.fan_mode, run_probe(Quantity::FanMode, &read).0);
    assert_eq!(bytes.cooler_boost, run_probe(Quantity::CoolerBoost, &read).0);
    assert_eq!(bytes.cpu_temp, 48);
    assert_eq!(bytes.gpu_temp, 0x81);
    assert_eq!(bytes.cpu_fan, 0);
    assert_eq!(bytes.gpu_fan, 7);
    assert_eq!(bytes.fan_mode, 0xD5);
    assert_eq!(bytes.cooler_boost, 0x99);
}

fn monitor(name: &str, temperature: Reading) -> Monitor {
    Monitor { name: name.to_string(), temperature }
}

#[test]
fn first_coretemp_monitor_decides() {
    let found = vec![
        monitor("acpitz\n", Reading::Millidegrees(30_000)),
        monitor("coretemp\n", Reading::Millidegrees(47_000)),
        monitor("coretemp\n", Reading::Millidegrees(52_000)),
    ];
    assert_eq!(read_cpu_temp_from_hwmon(&found), Reading::Millidegrees(47_000));
    // a first coretemp monitor without a reading is not passed over
    let silent = vec![
        monitor("coretemp\n", Reading::Unavailable),
        monitor("coretemp\n", Reading::Millidegrees(52_000)),
    ];
    assert_eq!(read_cpu_temp_from_hwmon(&silent), Reading::Unavailable);
    let none = vec![monitor("nvme\n", Reading::Millidegrees(40_000))];
    assert_eq!(read_cpu_temp_from_hwmon(&none), Reading::Unavailable);
    assert_eq!(read_cpu_temp_from_hwmon(&Vec::new()), Reading::Unavailable);
}

#[test]
fn first_graphics_monitor_with_a_reading_decides() {
    let found = vec![
        monitor("coretemp\n", Reading::Millidegrees(47_000)),
        monitor("nouveau\n", Reading::Unavailable),
        monitor("AMDGPU\n", Reading::Millidegrees(61_000)),
        monitor("nvidia\n", Reading::Millidegrees(70_000)),
    ];
    assert_eq!(read_gpu_temp_from_hwmon(&found), Reading::Millidegrees(61_000));
    let silent = vec![
        monitor("nvidia\n", Reading::Unavailable),
        monitor("coretemp\n", Reading::Millidegrees(47_000)),
    ];
    assert_eq!(read_gpu_temp_from_hwmon(&silent), Reading::Unavailable);
    assert_eq!(read_gpu_temp_from_hwmon(&Vec::new()), Reading::Unavailable);
}
