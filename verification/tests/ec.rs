use msi_center::ec::{
    decode_attribute, encode_attribute, get_sysfs_mapping, Backend, BackendProbe, EcAccess,
    EcError, EmbeddedController, PortOpen, SysfsAttribute, ACPI_EC_PATH, MSI_ADDRESS_CPU_FAN_SPEED,
    MSI_ADDRESS_CPU_TEMP, MSI_ADDRESS_GPU_FAN_SPEED, MSI_ADDRESS_GPU_TEMP, MSI_EC_PATH,
    PORT_DEVICE_PATH, SYS_VENDOR_PATH,
};
use msi_center::port::PortTransfer;

fn probe(port: PortOpen, acpi_debug: bool, vendor_driver: bool) -> BackendProbe {
    BackendProbe { port, acpi_debug, vendor_driver }
}

fn transport(backend: Backend) -> EmbeddedController {
    let found = match backend {
        Backend::DirectPort => probe(PortOpen::Opened, false, false),
        Backend::AcpiDebug => probe(PortOpen::Failed, true, false),
        Backend::VendorDriver => probe(PortOpen::Failed, false, true),
    };
    EmbeddedController::new(found).unwrap()
}

#[test]
fn paths_and_sensor_registers() {
    assert_eq!(PORT_DEVICE_PATH, "/dev/port");
    assert_eq!(ACPI_EC_PATH, "/sys/kernel/debug/ec/ec0/io");
    assert_eq!(MSI_EC_PATH, "/sys/devices/platform/msi-ec");
    assert_eq!(SYS_VENDOR_PATH, "/sys/class/dmi/id/sys_vendor");
    assert_eq!(MSI_ADDRESS_CPU_FAN_SPEED, 0xC8);
    assert_eq!(MSI_ADDRESS_GPU_FAN_SPEED, 0xCA);
    assert_eq!(MSI_ADDRESS_CPU_TEMP, 0x68);
    assert_eq!(MSI_ADDRESS_GPU_TEMP, 0x80);
}

#[test]
fn opened_port_wins() {
    for acpi in [false, true] {
        for vendor in [false, true] {
            let ec = EmbeddedController::new(probe(PortOpen::Opened, acpi, vendor)).unwrap();
            assert_eq!(ec.backend(), Backend::DirectPort);
        }
    }
}

#[test]
fn denied_port_ends_the_search() {
    for acpi in [false, true] {
        for vendor in [false, true] {
            assert_eq!(
                EmbeddedController::new(probe(PortOpen::PermissionDenied, acpi, vendor)),
                Err(EcError::PermissionDenied)
            );
        }
    }
}

#[test]
fn missing_port_falls_back_in_order() {
    assert_eq!(
        EmbeddedController::new(probe(PortOpen::Failed, true, true)).unwrap().backend(),
        Backend::AcpiDebug
    );
    assert_eq!(
        EmbeddedController::new(probe(PortOpen::Failed, true, false)).unwrap().backend(),
        Backend::AcpiDebug
    );
    assert_eq!(
        EmbeddedController::new(probe(PortOpen::Failed, false, true)).unwrap().backend(),
        Backend::VendorDriver
    );
    assert_eq!(
        EmbeddedController::new(probe(PortOpen::Failed, false, false)),
        Err(EcError::NotSupported)
    );
}

#[test]
fn port_backend_hands_out_transfers() {
    let ec = transport(Backend::DirectPort);
    assert_eq!(ec.read_byte(0x68), Ok(EcAccess::Port(PortTransfer::read(0x68))));
    assert_eq!(ec.write_byte(0xD2, 0xC4), Ok(EcAccess::Port(PortTransfer::write(0xD2, 0xC4))));
}

#[test]
fn debug_backend_uses_the_address_as_offset() {
    let ec = transport(Backend::AcpiDebug);
    for address in 0..=255u8 {
        assert_eq!(ec.read_byte(address), Ok(EcAccess::FileRead { offset: address as u64 }));
        assert_eq!(
            ec.write_byte(address, 7),
            Ok(EcAccess::FileWrite { offset: address as u64, value: 7 })
        );
    }
}

#[test]
fn vendor_backend_offers_four_registers() {
    let ec = transport(Backend::VendorDriver);
    let offered = [
        (0xD2u8, SysfsAttribute::ShiftMode),
        (0xEB, SysfsAttribute::SuperBattery),
        (0x98, SysfsAttribute::CoolerBoost),
        (0xD4, SysfsAttribute::FanMode),
    ];
    for address in 0..=255u8 {
        match offered.iter().find(|(a, _)| *a == address) {
            Some(&(_, attribute)) => {
                assert_eq!(get_sysfs_mapping(address), Some(attribute));
                assert_eq!(ec.read_byte(address), Ok(EcAccess::AttributeRead { attribute }));
                assert_eq!(
                    ec.write_byte(address, 3),
                    Ok(EcAccess::AttributeWrite { attribute, value: 3 })
                );
            }
            None => {
                assert_eq!(get_sysfs_mapping(address), None);
                assert_eq!(ec.read_byte(address), Err(EcError::NotSupported));
                assert_eq!(ec.write_byte(address, 3), Err(EcError::NotSupported));
            }
        }
    }
}

#[test]
fn attribute_paths() {
    assert_eq!(SysfsAttribute::ShiftMode.file_name(), "shift_mode");
    assert_eq!(SysfsAttribute::ShiftMode.path(), "/sys/devices/platform/msi-ec/shift_mode");
    assert_eq!(
        SysfsAttribute::SuperBattery.path(),
        "/sys/devices/platform/msi-ec/super_battery"
    );
    assert_eq!(SysfsAttribute::CoolerBoost.path(), "/sys/devices/platform/msi-ec/cooler_boost");
    assert_eq!(SysfsAttribute::FanMode.path(), "/sys/devices/platform/msi-ec/fan_mode");
}

#[test]
fn attribute_text_round_trips_for_every_byte() {
    for value in 0..=255u8 {
        let text = encode_attribute(value);
        assert_eq!(text, format!("{}", value));
        assert_eq!(decode_attribute(&text), Ok(value));
    }
}

#[test]
fn attribute_text_is_trimmed() {
    assert_eq!(decode_attribute("194\n"), Ok(194));
    assert_eq!(decode_attribute("  7 \t\r\n"), Ok(7));
    assert_eq!(decode_attribute("+12"), Ok(12));
    assert_eq!(decode_attribute("007"), Ok(7));
    assert_eq!(decode_attribute("255"), Ok(255));
}

#[test]
fn attribute_text_that_is_no_byte_is_a_failed_read() {
    for text in ["", "\n", "256", "-1", "on", "1 2", "0x10", "1.0", "+", "٣"] {
        assert_eq!(decode_attribute(text), Err(EcError::IoFailed), "{:?}", text);
    }
}

#[test]
fn vendor_names() {
    let ec = transport(Backend::AcpiDebug);
    assert!(ec.is_msi_laptop("Micro-Star International Co., Ltd.\n"));
    assert!(ec.is_msi_laptop("MICRO-STAR"));
    assert!(ec.is_msi_laptop("MSI"));
    assert!(ec.is_msi_laptop("msi"));
    assert!(ec.is_msi_laptop("Emsig"));
    assert!(!ec.is_msi_laptop("Dell Inc."));
    assert!(!ec.is_msi_laptop("ms"));
    assert!(!ec.is_msi_laptop(""));
    assert!(!ec.is_msi_laptop("micro star"));
}

#[test]
fn ec_error_messages() {
    assert_eq!(
        EcError::OpenError("No such file or directory".to_string()).to_string(),
        "Failed to open EC port: No such file or directory"
    );
    assert_eq!(
        EcError::PermissionDenied.to_string(),
        "Permission denied. Run as root or add user to appropriate group"
    );
    assert_eq!(EcError::NotSupported.to_string(), "EC not found or not supported");
    assert_eq!(EcError::IoFailed.to_string(), "EC read/write failed");
    assert_eq!(EcError::InvalidAddress(0x72).to_string(), "Invalid EC address: 0x72");
    assert_eq!(EcError::InvalidAddress(0).to_string(), "Invalid EC address: 0x0");
    assert_eq!(EcError::InvalidAddress(0x1ab).to_string(), "Invalid EC address: 0x1ab");
    assert_eq!(EcError::InvalidAddress(0xffff).to_string(), "Invalid EC address: 0xffff");
    for address in [0u16, 9, 10, 15, 16, 255, 256, 4095, 4096, 40960, 65535] {
        assert_eq!(
            EcError::InvalidAddress(address).to_string(),
            format!("Invalid EC address: {:#x}", address)
        );
    }
}
