//! The embedded controller: its register map, its errors and the choice
//! of the backend that reaches it.

use crate::port::{PortTransfer, Transfer, Waiting};
use crate::text::{
    chars_of, contains_keyword, contains_text, decimal_text, format_hex_u16, format_u8, hex_text,
    lowered, parse_u8, trim_bounds, trimmed, unsigned_byte,
};
use vstd::prelude::*;
use vstd::string::StringExecFns;

verus! {

/// CPU fan tachometer.
pub const MSI_ADDRESS_CPU_FAN_SPEED: u8 = 0xC8;

/// GPU fan tachometer.
pub const MSI_ADDRESS_GPU_FAN_SPEED: u8 = 0xCA;

/// CPU temperature in degrees Celsius.
pub const MSI_ADDRESS_CPU_TEMP: u8 = 0x68;

/// GPU temperature in degrees Celsius.
pub const MSI_ADDRESS_GPU_TEMP: u8 = 0x80;

/// Fan mode, in the low nibble.
pub const MSI_ADDRESS_FAN_MODE: u8 = 0xD4;

/// Cooler boost, in bit 7.
pub const MSI_ADDRESS_COOLER_BOOST: u8 = 0x98;

/// Shift mode.
pub const MSI_ADDRESS_SHIFT_MODE: u8 = 0xD2;

/// Super battery, in bit 0.
pub const MSI_ADDRESS_SUPER_BATTERY: u8 = 0xEB;

/// First byte of the CPU fan curve: six pairs of temperature and speed.
pub const MSI_ADDRESS_FAN1_BASE: u8 = 0x72;

/// First byte of the GPU fan curve: six pairs of temperature and speed.
pub const MSI_ADDRESS_FAN2_BASE: u8 = 0x8A;

/// Why the embedded controller could not be reached or used.
#[derive(Debug, Clone, PartialEq, Eq)]
pub enum EcError {
    /// The port device could not be opened; the text says why.
    OpenError(String),
    /// The device exists but the caller may not open it.
    PermissionDenied,
    /// No usable backend, or the backend does not offer the register.
    NotSupported,
    /// The address is outside the register map.
    InvalidAddress(u16),
    /// A transfer failed or timed out.
    IoFailed,
}

impl EcError {
    /// What the error says to the user.
    pub open spec fn text(self) -> Seq<char> {
        match self {
            EcError::OpenError(reason) => "Failed to open EC port: "@ + reason@,
            EcError::PermissionDenied =>
                "Permission denied. Run as root or add user to appropriate group"@,
            EcError::NotSupported => "EC not found or not supported"@,
            EcError::InvalidAddress(address) => "Invalid EC address: 0x"@ + hex_text(
                address as nat,
            ),
            EcError::IoFailed => "EC read/write failed"@,
        }
    }

    /// What the error says to the user.
    pub fn to_string(&self) -> (message: String)
        ensures
            message@ == self.text(),
    {
        match self {
            EcError::OpenError(reason) => {
                let mut message = String::from_str("Failed to open EC port: ");
                message.append(reason.as_str());
                message
            },
            EcError::PermissionDenied => String::from_str(
                "Permission denied. Run as root or add user to appropriate group",
            ),
            EcError::NotSupported => String::from_str("EC not found or not supported"),
            EcError::InvalidAddress(address) => {
                let mut message = String::from_str("Invalid EC address: 0x");
                let digits = format_hex_u16(*address);
                message.append(digits.as_str());
                message
            },
            EcError::IoFailed => String::from_str("EC read/write failed"),
        }
    }
}

/// The device through which the I/O ports are reached.
pub const PORT_DEVICE_PATH: &'static str = "/dev/port";

/// The kernel's debug view of the controller's registers.
pub const ACPI_EC_PATH: &'static str = "/sys/kernel/debug/ec/ec0/io";

/// The directory of the vendor driver's attributes.
pub const MSI_EC_PATH: &'static str = "/sys/devices/platform/msi-ec";

/// The file that names the machine's vendor.
pub const SYS_VENDOR_PATH: &'static str = "/sys/class/dmi/id/sys_vendor";

/// A way to reach the controller's registers.
#[derive(Debug, Clone, Copy, PartialEq, Eq, Structural)]
pub enum Backend {
    /// The handshake over the I/O ports.
    DirectPort,
    /// The kernel's debug file, one byte per register.
    AcpiDebug,
    /// The vendor driver's attributes, one file per register, for a few
    /// registers only.
    VendorDriver,
}

/// How the attempt to open the port device ended.
#[derive(Debug, Clone, Copy, PartialEq, Eq, Structural)]
pub enum PortOpen {
    Opened,
    /// The device is there, but the caller may not open it.
    PermissionDenied,
    /// The device could not be opened for another reason.
    Failed,
}

/// What was found of the three backends.
#[derive(Debug, Clone, Copy, PartialEq, Eq, Structural)]
pub struct BackendProbe {
    pub port: PortOpen,
    /// Whether the kernel's debug file exists.
    pub acpi_debug: bool,
    /// Whether the vendor driver's directory exists.
    pub vendor_driver: bool,
}

/// The backend to use: the ports if they could be opened, else the debug
/// file, else the vendor driver. A port device that refuses the caller ends
/// the search: the machine has a controller, the caller lacks the right.
pub open spec fn select_backend(probe: BackendProbe) -> Result<Backend, EcError> {
    match probe.port {
        PortOpen::Opened => Ok(Backend::DirectPort),
        PortOpen::PermissionDenied => Err(EcError::PermissionDenied),
        PortOpen::Failed => if probe.acpi_debug {
            Ok(Backend::AcpiDebug)
        } else if probe.vendor_driver {
            Ok(Backend::VendorDriver)
        } else {
            Err(EcError::NotSupported)
        },
    }
}

/// A register that the vendor driver offers as an attribute.
#[derive(Debug, Clone, Copy, PartialEq, Eq, Structural)]
pub enum SysfsAttribute {
    ShiftMode,
    SuperBattery,
    CoolerBoost,
    FanMode,
}

/// The attribute that stands for a register, if the vendor driver offers
/// one.
pub open spec fn attribute_of(address: u8) -> Option<SysfsAttribute> {
    if address == MSI_ADDRESS_SHIFT_MODE {
        Some(SysfsAttribute::ShiftMode)
    } else if address == MSI_ADDRESS_SUPER_BATTERY {
        Some(SysfsAttribute::SuperBattery)
    } else if address == MSI_ADDRESS_COOLER_BOOST {
        Some(SysfsAttribute::CoolerBoost)
    } else if address == MSI_ADDRESS_FAN_MODE {
        Some(SysfsAttribute::FanMode)
    } else {
        None
    }
}

impl SysfsAttribute {
    /// The name of the attribute's file.
    pub open spec fn name(self) -> Seq<char> {
        match self {
            SysfsAttribute::ShiftMode => "shift_mode"@,
            SysfsAttribute::SuperBattery => "super_battery"@,
            SysfsAttribute::CoolerBoost => "cooler_boost"@,
            SysfsAttribute::FanMode => "fan_mode"@,
        }
    }

    /// The name of the attribute's file.
    pub fn file_name(&self) -> (name: &'static str)
        ensures
            name@ == self.name(),
    {
        match self {
            SysfsAttribute::ShiftMode => "shift_mode",
            SysfsAttribute::SuperBattery => "super_battery",
            SysfsAttribute::CoolerBoost => "cooler_boost",
            SysfsAttribute::FanMode => "fan_mode",
        }
    }

    /// The path of the attribute's file.
    pub fn path(&self) -> (path: String)
        ensures
            path@ == MSI_EC_PATH@ + "/"@ + self.name(),
    {
        let mut path = String::from_str(MSI_EC_PATH);
        path.append("/");
        path.append(self.file_name());
        path
    }
}

/// What to do at the device to read or write one register.
#[derive(Debug, Clone, Copy, PartialEq, Eq, Structural)]
pub enum EcAccess {
    /// Run the transfer on the port device.
    Port(PortTransfer),
    /// Read the byte at `offset` of the debug file.
    FileRead { offset: u64 },
    /// Write `value` at `offset` of the debug file.
    FileWrite { offset: u64, value: u8 },
    /// Read the attribute's file and decode its content.
    AttributeRead { attribute: SysfsAttribute },
    /// Encode `value` and write it to the attribute's file.
    AttributeWrite { attribute: SysfsAttribute, value: u8 },
}

/// How a register is read through a backend. The vendor driver offers four
/// registers; any other is not supported there.
pub open spec fn read_access(backend: Backend, address: u8) -> Result<EcAccess, EcError> {
    match backend {
        Backend::DirectPort => Ok(
            EcAccess::Port(
                PortTransfer {
                    transfer: Transfer::Read { address },
                    index: 0,
                    polls: 0,
                    waiting: Waiting::Start,
                },
            ),
        ),
        Backend::AcpiDebug => Ok(EcAccess::FileRead { offset: address as u64 }),
        Backend::VendorDriver => match attribute_of(address) {
            Some(attribute) => Ok(EcAccess::AttributeRead { attribute }),
            None => Err(EcError::NotSupported),
        },
    }
}

/// How a register is written through a backend.
pub open spec fn write_access(backend: Backend, address: u8, value: u8) -> Result<
    EcAccess,
    EcError,
> {
    match backend {
        Backend::DirectPort => Ok(
            EcAccess::Port(
                PortTransfer {
                    transfer: Transfer::Write { address, value },
                    index: 0,
                    polls: 0,
                    waiting: Waiting::Start,
                },
            ),
        ),
        Backend::AcpiDebug => Ok(EcAccess::FileWrite { offset: address as u64, value }),
        Backend::VendorDriver => match attribute_of(address) {
            Some(attribute) => Ok(EcAccess::AttributeWrite { attribute, value }),
            None => Err(EcError::NotSupported),
        },
    }
}

/// The byte that the content of an attribute's file denotes: a decimal
/// number within surrounding spaces. Any other content is a failed read.
pub open spec fn attribute_value(content: Seq<char>) -> Result<u8, EcError> {
    match unsigned_byte(trimmed(content)) {
        Some(value) => Ok(value),
        None => Err(EcError::IoFailed),
    }
}

/// The attribute that stands for a register, if the vendor driver offers
/// one.
pub fn get_sysfs_mapping(address: u8) -> (attribute: Option<SysfsAttribute>)
    ensures
        attribute == attribute_of(address),
{
    if address == MSI_ADDRESS_SHIFT_MODE {
        Some(SysfsAttribute::ShiftMode)
    } else if address == MSI_ADDRESS_SUPER_BATTERY {
        Some(SysfsAttribute::SuperBattery)
    } else if address == MSI_ADDRESS_COOLER_BOOST {
        Some(SysfsAttribute::CoolerBoost)
    } else if address == MSI_ADDRESS_FAN_MODE {
        Some(SysfsAttribute::FanMode)
    } else {
        None
    }
}

/// Decodes the content of an attribute's file.
pub fn decode_attribute(content: &str) -> (value: Result<u8, EcError>)
    ensures
        value == attribute_value(content@),
{
    let chars = chars_of(content);
    let (start, end) = trim_bounds(&chars);
    match parse_u8(&chars, start, end) {
        Some(byte) => Ok(byte),
        None => Err(EcError::IoFailed),
    }
}

/// Encodes a byte as the content of an attribute's file: its decimal
/// digits.
pub fn encode_attribute(value: u8) -> (content: String)
    ensures
        content@ == decimal_text(value as nat),
{
    format_u8(value)
}

/// The transport to the embedded controller: the backend in use, and how
/// each register is reached through it.
#[derive(Debug, Clone, Copy, PartialEq, Eq, Structural)]
pub struct EmbeddedController {
    backend: Backend,
}

impl EmbeddedController {
    /// The backend in use.
    pub closed spec fn selected(&self) -> Backend {
        self.backend
    }

    /// The transport over the backend that the probe selects, or the
    /// reason why there is none.
    pub fn new(probe: BackendProbe) -> (transport: Result<EmbeddedController, EcError>)
        ensures
            match transport {
                Ok(ec) => select_backend(probe) == Ok::<Backend, EcError>(ec.selected()),
                Err(error) => select_backend(probe) == Err::<Backend, EcError>(error),
            },
    {
        match probe.port {
            PortOpen::Opened => Ok(EmbeddedController { backend: Backend::DirectPort }),
            PortOpen::PermissionDenied => Err(EcError::PermissionDenied),
            PortOpen::Failed => {
                if probe.acpi_debug {
                    Ok(EmbeddedController { backend: Backend::AcpiDebug })
                } else if probe.vendor_driver {
                    Ok(EmbeddedController { backend: Backend::VendorDriver })
                } else {
                    Err(EcError::NotSupported)
                }
            },
        }
    }

    /// The backend in use.
    pub fn backend(&self) -> (backend: Backend)
        ensures
            backend == self.selected(),
    {
        self.backend
    }

    /// How to read the register at `address`.
    pub fn read_byte(&self, address: u8) -> (access: Result<EcAccess, EcError>)
        ensures
            access == read_access(self.selected(), address),
    {
        match self.backend {
            Backend::DirectPort => Ok(EcAccess::Port(PortTransfer::read(address))),
            Backend::AcpiDebug => Ok(EcAccess::FileRead { offset: address as u64 }),
            Backend::VendorDriver => match get_sysfs_mapping(address) {
                Some(attribute) => Ok(EcAccess::AttributeRead { attribute }),
                None => Err(EcError::NotSupported),
            },
        }
    }

    /// How to write `value` to the register at `address`.
    pub fn write_byte(&self, address: u8, value: u8) -> (access: Result<EcAccess, EcError>)
        ensures
            access == write_access(self.selected(), address, value),
    {
        match self.backend {
            Backend::DirectPort => Ok(EcAccess::Port(PortTransfer::write(address, value))),
            Backend::AcpiDebug => Ok(EcAccess::FileWrite { offset: address as u64, value }),
            Backend::VendorDriver => match get_sysfs_mapping(address) {
                Some(attribute) => Ok(EcAccess::AttributeWrite { attribute, value }),
                None => Err(EcError::NotSupported),
            },
        }
    }

    /// Whether the vendor's name is that of an MSI machine: whether it
    /// holds `micro-star` or `msi`, in capitals or not.
    pub fn is_msi_laptop(&self, vendor: &str) -> (msi: bool)
        ensures
            msi == (contains_text(lowered(vendor@), "micro-star"@) || contains_text(
                lowered(vendor@),
                "msi"@,
            )),
    {
        let chars = chars_of(vendor);
        contains_keyword(&chars, "micro-star") || contains_keyword(&chars, "msi")
    }
}

/// Through every backend a register can be read exactly when it can be
/// written, and both directions reach the same place: the same register
/// over the ports, the same offset of the debug file, the same attribute
/// of the vendor driver.
pub proof fn lemma_both_directions(backend: Backend, address: u8, value: u8)
    ensures
        match (read_access(backend, address), write_access(backend, address, value)) {
            (Ok(EcAccess::Port(reading)), Ok(EcAccess::Port(writing))) => {
                &&& reading.transfer == Transfer::Read { address }
                &&& writing.transfer == Transfer::Write { address, value }
            },
            (Ok(EcAccess::FileRead { offset }), Ok(EcAccess::FileWrite { offset: to, value: v })) => {
                &&& offset == address
                &&& to == address
                &&& v == value
            },
            (
                Ok(EcAccess::AttributeRead { attribute }),
                Ok(EcAccess::AttributeWrite { attribute: to, value: v }),
            ) => {
                &&& attribute_of(address) == Some(attribute)
                &&& to == attribute
                &&& v == value
            },
            (Err(refused), Err(same)) => {
                &&& backend == Backend::VendorDriver
                &&& attribute_of(address) is None
                &&& refused == EcError::NotSupported
                &&& same == EcError::NotSupported
            },
            _ => false,
        },
{
}

/// No two registers share an attribute of the vendor driver.
pub proof fn lemma_attributes_distinct(first: u8, second: u8)
    requires
        attribute_of(first) is Some,
        attribute_of(first) == attribute_of(second),
    ensures
        first == second,
{
}

/// An attribute's content that was encoded from a byte decodes to that
/// byte.
pub proof fn lemma_attribute_round_trip(value: u8)
    ensures
        attribute_value(decimal_text(value as nat)) == Ok::<u8, EcError>(value),
{
    crate::text::lemma_decimal_text_value(value as nat);
    crate::text::lemma_byte_text_round_trip(value);
    let text = decimal_text(value as nat);
    assert(crate::text::is_digit(text[0]));
    assert(crate::text::is_digit(text[text.len() - 1]));
    assert(trimmed(text) =~= text);
}

} // verus!
