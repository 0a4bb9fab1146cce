//! Where temperatures, fan speeds and fan settings are read from, and what
//! is made of the readings.
//!
//! Each quantity has an ordered list of sources. A [`SensorProbe`] asks for
//! them one by one and settles on the first reading it accepts; when no
//! source gives one, the quantity is reported as zero.

use crate::ec::{
    MSI_ADDRESS_COOLER_BOOST, MSI_ADDRESS_CPU_FAN_SPEED, MSI_ADDRESS_CPU_TEMP,
    MSI_ADDRESS_FAN_MODE, MSI_ADDRESS_GPU_FAN_SPEED, MSI_ADDRESS_GPU_TEMP,
};
use crate::fan::SensorBytes;
use crate::text::{
    chars_of, contains_keyword, contains_text, decimal_text, format_u8, lowered, matches_exactly,
    parse_i32, signed_integer, trim_bounds, trimmed,
};
use vstd::prelude::*;
use vstd::string::StringExecFns;

verus! {

/// What is measured.
#[derive(Debug, Clone, Copy, PartialEq, Eq, Structural)]
pub enum Quantity {
    CpuTemp,
    GpuTemp,
    CpuFan,
    GpuFan,
    FanMode,
    CoolerBoost,
}

/// A place to read a quantity from.
#[derive(Debug, Clone, Copy, PartialEq, Eq, Structural)]
pub enum SensorSource {
    /// The hardware monitor named `coretemp`, in millidegrees.
    Coretemp,
    /// A thermal zone of the kernel, in millidegrees.
    ThermalZone { zone: u8 },
    /// The first hardware monitor of a graphics driver, in millidegrees.
    GpuHwmon,
    /// A register of the controller, read from the kernel's debug file.
    EcDirect { address: u8 },
    /// A register of the controller, read through the transport.
    EcTransport { address: u8 },
}

/// What a source gave.
#[derive(Debug, Clone, Copy, PartialEq, Eq, Structural)]
pub enum Reading {
    /// The source is missing, unreadable or holds no number.
    Unavailable,
    /// A temperature in thousandths of a degree Celsius.
    Millidegrees(i32),
    /// The byte a register holds.
    Byte(u8),
}

/// A millidegree reading in whole degrees, rounded towards zero.
pub open spec fn whole_degrees(millidegrees: int) -> int {
    if millidegrees >= 0 {
        millidegrees / 1000
    } else {
        -((-millidegrees) / 1000)
    }
}

/// A millidegree reading as the byte that is reported: its whole degrees,
/// wrapped into a byte.
pub open spec fn celsius(millidegrees: int) -> u8 {
    (whole_degrees(millidegrees) % 256) as u8
}

/// The sources of a quantity, in the order in which they are tried.
pub open spec fn sources(quantity: Quantity) -> Seq<SensorSource> {
    match quantity {
        Quantity::CpuTemp => seq![
            SensorSource::Coretemp,
            SensorSource::ThermalZone { zone: 0 },
            SensorSource::ThermalZone { zone: 1 },
            SensorSource::ThermalZone { zone: 2 },
            SensorSource::EcDirect { address: MSI_ADDRESS_CPU_TEMP },
            SensorSource::EcTransport { address: MSI_ADDRESS_CPU_TEMP },
        ],
        Quantity::GpuTemp => seq![
            SensorSource::GpuHwmon,
            SensorSource::EcDirect { address: MSI_ADDRESS_GPU_TEMP },
            SensorSource::EcTransport { address: MSI_ADDRESS_GPU_TEMP },
        ],
        Quantity::CpuFan => seq![
            SensorSource::EcDirect { address: MSI_ADDRESS_CPU_FAN_SPEED },
            SensorSource::EcDirect { address: (MSI_ADDRESS_CPU_FAN_SPEED + 1) as u8 },
        ],
        Quantity::GpuFan => seq![
            SensorSource::EcDirect { address: MSI_ADDRESS_GPU_FAN_SPEED },
            SensorSource::EcDirect { address: (MSI_ADDRESS_GPU_FAN_SPEED + 1) as u8 },
        ],
        Quantity::FanMode => seq![
            SensorSource::EcDirect { address: MSI_ADDRESS_FAN_MODE },
            SensorSource::EcTransport { address: MSI_ADDRESS_FAN_MODE },
        ],
        Quantity::CoolerBoost => seq![
            SensorSource::EcDirect { address: MSI_ADDRESS_COOLER_BOOST },
            SensorSource::EcTransport { address: MSI_ADDRESS_COOLER_BOOST },
        ],
    }
}

/// The value that a reading is accepted as, if it is accepted.
///
/// A temperature from a hardware monitor is taken as it is. One from a
/// thermal zone is taken only strictly between 20 and 110 degrees: a zone
/// may belong to another part of the machine. A register's byte is taken
/// as it is, but a fan's tachometer only where it is not zero. A reading
/// of the wrong kind for its source is not accepted.
pub open spec fn accepted(quantity: Quantity, source: SensorSource, reading: Reading) -> Option<
    u8,
> {
    match (source, reading) {
        (SensorSource::Coretemp, Reading::Millidegrees(m)) => Some(celsius(m as int)),
        (SensorSource::GpuHwmon, Reading::Millidegrees(m)) => Some(celsius(m as int)),
        (SensorSource::ThermalZone { .. }, Reading::Millidegrees(m)) => if 20 < whole_degrees(
            m as int,
        ) < 110 {
            Some(celsius(m as int))
        } else {
            None
        },
        (SensorSource::EcDirect { .. }, Reading::Byte(byte)) => if (quantity == Quantity::CpuFan
            || quantity == Quantity::GpuFan) && byte == 0 {
            None
        } else {
            Some(byte)
        },
        (SensorSource::EcTransport { .. }, Reading::Byte(byte)) => if (quantity
            == Quantity::CpuFan || quantity == Quantity::GpuFan) && byte == 0 {
            None
        } else {
            Some(byte)
        },
        _ => None,
    }
}

/// The first value accepted among the readings of the sources from index
/// `from` on, each source answering as `read` says.
pub open spec fn first_accepted(
    quantity: Quantity,
    read: spec_fn(SensorSource) -> Reading,
    from: int,
) -> Option<u8>
    decreases sources(quantity).len() - from,
{
    if from < 0 || from >= sources(quantity).len() {
        None
    } else {
        match accepted(quantity, sources(quantity)[from], read(sources(quantity)[from])) {
            Some(value) => Some(value),
            None => first_accepted(quantity, read, from + 1),
        }
    }
}

/// The value reported for a quantity: the first accepted reading, or zero.
pub open spec fn resolved(quantity: Quantity, read: spec_fn(SensorSource) -> Reading) -> u8 {
    match first_accepted(quantity, read, 0) {
        Some(value) => value,
        None => 0,
    }
}

/// The acquisition of one quantity.
#[derive(Debug, Clone, Copy, PartialEq, Eq, Structural)]
pub struct SensorProbe {
    pub quantity: Quantity,
    /// The index of the source to try next.
    pub next: u8,
    /// The accepted value, once there is one.
    pub value: Option<u8>,
}

impl SensorProbe {
    /// The source to read next: none once a value is accepted or the
    /// sources are used up.
    pub open spec fn awaited(self) -> Option<SensorSource> {
        if self.value is None && self.next < sources(self.quantity).len() {
            Some(sources(self.quantity)[self.next as int])
        } else {
            None
        }
    }

    /// The probe after a reading of the awaited source. Without an awaited
    /// source the reading is ignored.
    pub open spec fn supplied(self, reading: Reading) -> SensorProbe {
        match self.awaited() {
            Some(source) => match accepted(self.quantity, source, reading) {
                Some(value) => SensorProbe { value: Some(value), ..self },
                None => SensorProbe { next: (self.next + 1) as u8, ..self },
            },
            None => self,
        }
    }

    /// The probe after every awaited source has answered as `read` says.
    pub open spec fn completed(self, read: spec_fn(SensorSource) -> Reading) -> SensorProbe
        decreases sources(self.quantity).len() - self.next,
    {
        match self.awaited() {
            Some(source) => {
                let after = self.supplied(read(source));
                if after.next > self.next {
                    after.completed(read)
                } else {
                    after
                }
            },
            None => self,
        }
    }

    /// The value to report: the accepted one, or zero.
    pub open spec fn reported(self) -> u8 {
        match self.value {
            Some(value) => value,
            None => 0,
        }
    }

    /// A probe that has tried no source yet.
    pub fn new(quantity: Quantity) -> (probe: SensorProbe)
        ensures
            probe == (SensorProbe { quantity, next: 0, value: None }),
    {
        SensorProbe { quantity, next: 0, value: None }
    }

    /// The source to read next, if any.
    pub fn pending(&self) -> (source: Option<SensorSource>)
        ensures
            source == self.awaited(),
    {
        if self.value.is_some() {
            return None;
        }
        source_at(self.quantity, self.next)
    }

    /// Takes in the reading of the pending source.
    pub fn supply(&mut self, reading: Reading)
        ensures
            *final(self) == old(self).supplied(reading),
    {
        match self.pending() {
            Some(source) => match accept(self.quantity, source, reading) {
                Some(value) => {
                    self.value = Some(value);
                },
                None => {
                    self.next = self.next + 1;
                },
            },
            None => {},
        }
    }

    /// The value to report: the accepted one, or zero.
    pub fn value_or_zero(&self) -> (value: u8)
        ensures
            value == self.reported(),
    {
        match self.value {
            Some(value) => value,
            None => 0,
        }
    }
}

/// The source at `index` of a quantity's list, if the list is that long.
pub fn source_at(quantity: Quantity, index: u8) -> (source: Option<SensorSource>)
    ensures
        source == if index < sources(quantity).len() {
            Some(sources(quantity)[index as int])
        } else {
            None
        },
{
    match quantity {
        Quantity::CpuTemp => match index {
            0 => Some(SensorSource::Coretemp),
            1 => Some(SensorSource::ThermalZone { zone: 0 }),
            2 => Some(SensorSource::ThermalZone { zone: 1 }),
            3 => Some(SensorSource::ThermalZone { zone: 2 }),
            4 => Some(SensorSource::EcDirect { address: MSI_ADDRESS_CPU_TEMP }),
            5 => Some(SensorSource::EcTransport { address: MSI_ADDRESS_CPU_TEMP }),
            _ => None,
        },
        Quantity::GpuTemp => match index {
            0 => Some(SensorSource::GpuHwmon),
            1 => Some(SensorSource::EcDirect { address: MSI_ADDRESS_GPU_TEMP }),
            2 => Some(SensorSource::EcTransport { address: MSI_ADDRESS_GPU_TEMP }),
            _ => None,
        },
        Quantity::CpuFan => match index {
            0 => Some(SensorSource::EcDirect { address: MSI_ADDRESS_CPU_FAN_SPEED }),
            1 => Some(SensorSource::EcDirect { address: MSI_ADDRESS_CPU_FAN_SPEED + 1 }),
            _ => None,
        },
        Quantity::GpuFan => match index {
            0 => Some(SensorSource::EcDirect { address: MSI_ADDRESS_GPU_FAN_SPEED }),
            1 => Some(SensorSource::EcDirect { address: MSI_ADDRESS_GPU_FAN_SPEED + 1 }),
            _ => None,
        },
        Quantity::FanMode => match index {
            0 => Some(SensorSource::EcDirect { address: MSI_ADDRESS_FAN_MODE }),
            1 => Some(SensorSource::EcTransport { address: MSI_ADDRESS_FAN_MODE }),
            _ => None,
        },
        Quantity::CoolerBoost => match index {
            0 => Some(SensorSource::EcDirect { address: MSI_ADDRESS_COOLER_BOOST }),
            1 => Some(SensorSource::EcTransport { address: MSI_ADDRESS_COOLER_BOOST }),
            _ => None,
        },
    }
}

/// A millidegree reading in whole degrees, rounded towards zero.
pub fn degrees_from_millidegrees(millidegrees: i32) -> (degrees: i32)
    ensures
        degrees == whole_degrees(millidegrees as int),
{
    let wide: i64 = millidegrees as i64;
    if wide >= 0 {
        (wide / 1000) as i32
    } else {
        let magnitude: i64 = -wide;
        (-(magnitude / 1000)) as i32
    }
}

/// A millidegree reading as the byte that is reported.
pub fn celsius_from_millidegrees(millidegrees: i32) -> (degrees: u8)
    ensures
        degrees == celsius(millidegrees as int),
{
    let whole = degrees_from_millidegrees(millidegrees);
    if whole >= 0 {
        (whole % 256) as u8
    } else {
        let below: i32 = (-whole) % 256;
        if below == 0 {
            0
        } else {
            (256 - below) as u8
        }
    }
}

/// The value that a reading is accepted as, if it is accepted.
pub fn accept(quantity: Quantity, source: SensorSource, reading: Reading) -> (value: Option<u8>)
    ensures
        value == accepted(quantity, source, reading),
{
    let tachometer = match quantity {
        Quantity::CpuFan => true,
        Quantity::GpuFan => true,
        _ => false,
    };
    match (source, reading) {
        (SensorSource::Coretemp, Reading::Millidegrees(m)) => Some(celsius_from_millidegrees(m)),
        (SensorSource::GpuHwmon, Reading::Millidegrees(m)) => Some(celsius_from_millidegrees(m)),
        (SensorSource::ThermalZone { .. }, Reading::Millidegrees(m)) => {
            let whole = degrees_from_millidegrees(m);
            if 20 < whole && whole < 110 {
                Some(celsius_from_millidegrees(m))
            } else {
                None
            }
        },
        (SensorSource::EcDirect { .. }, Reading::Byte(byte)) => {
            if tachometer && byte == 0 {
                None
            } else {
                Some(byte)
            }
        },
        (SensorSource::EcTransport { .. }, Reading::Byte(byte)) => {
            if tachometer && byte == 0 {
                None
            } else {
                Some(byte)
            }
        },
        _ => None,
    }
}

/// A probe that has had every source it awaited answered holds the first
/// accepted reading in the order of its sources, and reports zero where
/// none was accepted.
pub proof fn lemma_probe_resolves(probe: SensorProbe, read: spec_fn(SensorSource) -> Reading)
    requires
        probe.value is None,
    ensures
        probe.completed(read).value == first_accepted(probe.quantity, read, probe.next as int),
        probe.completed(read).awaited() is None,
    decreases sources(probe.quantity).len() - probe.next,
{
    match probe.awaited() {
        Some(source) => {
            let after = probe.supplied(read(source));
            if after.next > probe.next {
                lemma_probe_resolves(after, read);
            }
        },
        None => {},
    }
}

/// A fresh probe, once every source it awaited has answered, reports the
/// resolved value of its quantity.
pub proof fn lemma_fresh_probe_resolves(quantity: Quantity, read: spec_fn(SensorSource) -> Reading)
    ensures
        (SensorProbe { quantity, next: 0, value: None }).completed(read).reported() == resolved(
            quantity,
            read,
        ),
{
    lemma_probe_resolves(SensorProbe { quantity, next: 0, value: None }, read);
}

/// The sources of a probe that are still to be read, at most.
pub open spec fn remaining(probe: SensorProbe) -> nat {
    if probe.value is None && probe.next < sources(probe.quantity).len() {
        (sources(probe.quantity).len() - probe.next) as nat
    } else {
        0
    }
}

/// The acquisition of all that the fan report holds: the two
/// temperatures, the two tachometers, the fan mode and the cooler boost,
/// one after the other.
#[derive(Debug, Clone, Copy, PartialEq, Eq, Structural)]
pub struct FanInfoQuery {
    pub cpu_temp: SensorProbe,
    pub gpu_temp: SensorProbe,
    pub cpu_fan: SensorProbe,
    pub gpu_fan: SensorProbe,
    pub fan_mode: SensorProbe,
    pub cooler_boost: SensorProbe,
}

impl FanInfoQuery {
    /// The source to read next: that of the first probe that awaits one.
    pub open spec fn awaited(self) -> Option<SensorSource> {
        if self.cpu_temp.awaited() is Some {
            self.cpu_temp.awaited()
        } else if self.gpu_temp.awaited() is Some {
            self.gpu_temp.awaited()
        } else if self.cpu_fan.awaited() is Some {
            self.cpu_fan.awaited()
        } else if self.gpu_fan.awaited() is Some {
            self.gpu_fan.awaited()
        } else if self.fan_mode.awaited() is Some {
            self.fan_mode.awaited()
        } else {
            self.cooler_boost.awaited()
        }
    }

    /// The query after a reading of the awaited source: the reading goes
    /// to the first probe that awaits one.
    pub open spec fn supplied(self, reading: Reading) -> FanInfoQuery {
        if self.cpu_temp.awaited() is Some {
            FanInfoQuery { cpu_temp: self.cpu_temp.supplied(reading), ..self }
        } else if self.gpu_temp.awaited() is Some {
            FanInfoQuery { gpu_temp: self.gpu_temp.supplied(reading), ..self }
        } else if self.cpu_fan.awaited() is Some {
            FanInfoQuery { cpu_fan: self.cpu_fan.supplied(reading), ..self }
        } else if self.gpu_fan.awaited() is Some {
            FanInfoQuery { gpu_fan: self.gpu_fan.supplied(reading), ..self }
        } else if self.fan_mode.awaited() is Some {
            FanInfoQuery { fan_mode: self.fan_mode.supplied(reading), ..self }
        } else {
            FanInfoQuery { cooler_boost: self.cooler_boost.supplied(reading), ..self }
        }
    }

    /// The sources that are still to be read, at most.
    pub open spec fn outstanding(self) -> nat {
        remaining(self.cpu_temp) + remaining(self.gpu_temp) + remaining(self.cpu_fan) + remaining(
            self.gpu_fan,
        ) + remaining(self.fan_mode) + remaining(self.cooler_boost)
    }

    /// The query after every awaited source has answered as `read` says.
    pub open spec fn completed(self, read: spec_fn(SensorSource) -> Reading) -> FanInfoQuery
        decreases self.outstanding(),
    {
        match self.awaited() {
            Some(source) => {
                let after = self.supplied(read(source));
                if after.outstanding() < self.outstanding() {
                    after.completed(read)
                } else {
                    after
                }
            },
            None => self,
        }
    }

    /// The bytes to report: for each quantity the accepted value, or zero.
    pub open spec fn reported(self) -> SensorBytes {
        SensorBytes {
            cpu_temp: self.cpu_temp.reported(),
            gpu_temp: self.gpu_temp.reported(),
            cpu_fan: self.cpu_fan.reported(),
            gpu_fan: self.gpu_fan.reported(),
            fan_mode: self.fan_mode.reported(),
            cooler_boost: self.cooler_boost.reported(),
        }
    }

    /// The query in which no probe has tried a source yet.
    pub open spec fn fresh() -> FanInfoQuery {
        FanInfoQuery {
            cpu_temp: SensorProbe { quantity: Quantity::CpuTemp, next: 0, value: None },
            gpu_temp: SensorProbe { quantity: Quantity::GpuTemp, next: 0, value: None },
            cpu_fan: SensorProbe { quantity: Quantity::CpuFan, next: 0, value: None },
            gpu_fan: SensorProbe { quantity: Quantity::GpuFan, next: 0, value: None },
            fan_mode: SensorProbe { quantity: Quantity::FanMode, next: 0, value: None },
            cooler_boost: SensorProbe { quantity: Quantity::CoolerBoost, next: 0, value: None },
        }
    }

    /// A query in which no probe has tried a source yet.
    pub fn new() -> (query: FanInfoQuery)
        ensures
            query == FanInfoQuery::fresh(),
    {
        FanInfoQuery {
            cpu_temp: SensorProbe::new(Quantity::CpuTemp),
            gpu_temp: SensorProbe::new(Quantity::GpuTemp),
            cpu_fan: SensorProbe::new(Quantity::CpuFan),
            gpu_fan: SensorProbe::new(Quantity::GpuFan),
            fan_mode: SensorProbe::new(Quantity::FanMode),
            cooler_boost: SensorProbe::new(Quantity::CoolerBoost),
        }
    }

    /// The source to read next, if any.
    pub fn pending(&self) -> (source: Option<SensorSource>)
        ensures
            source == self.awaited(),
    {
        if let Some(source) = self.cpu_temp.pending() {
            Some(source)
        } else if let Some(source) = self.gpu_temp.pending() {
            Some(source)
        } else if let Some(source) = self.cpu_fan.pending() {
            Some(source)
        } else if let Some(source) = self.gpu_fan.pending() {
            Some(source)
        } else if let Some(source) = self.fan_mode.pending() {
            Some(source)
        } else {
            self.cooler_boost.pending()
        }
    }

    /// Takes in the reading of the pending source.
    pub fn supply(&mut self, reading: Reading)
        ensures
            *final(self) == old(self).supplied(reading),
    {
        if self.cpu_temp.pending().is_some() {
            self.cpu_temp.supply(reading);
        } else if self.gpu_temp.pending().is_some() {
            self.gpu_temp.supply(reading);
        } else if self.cpu_fan.pending().is_some() {
            self.cpu_fan.supply(reading);
        } else if self.gpu_fan.pending().is_some() {
            self.gpu_fan.supply(reading);
        } else if self.fan_mode.pending().is_some() {
            self.fan_mode.supply(reading);
        } else {
            self.cooler_boost.supply(reading);
        }
    }

    /// The bytes to report: for each quantity the accepted value, or zero.
    pub fn bytes(&self) -> (bytes: SensorBytes)
        ensures
            bytes == self.reported(),
    {
        SensorBytes {
            cpu_temp: self.cpu_temp.value_or_zero(),
            gpu_temp: self.gpu_temp.value_or_zero(),
            cpu_fan: self.cpu_fan.value_or_zero(),
            gpu_fan: self.gpu_fan.value_or_zero(),
            fan_mode: self.fan_mode.value_or_zero(),
            cooler_boost: self.cooler_boost.value_or_zero(),
        }
    }
}

/// A reading of the awaited source leaves a probe with fewer sources to
/// read, and the probe completes to what it would have completed to.
proof fn lemma_probe_step(probe: SensorProbe, read: spec_fn(SensorSource) -> Reading)
    requires
        probe.awaited() is Some,
    ensures
        remaining(probe.supplied(read(probe.awaited()->Some_0))) < remaining(probe),
        probe.supplied(read(probe.awaited()->Some_0)).completed(read) == probe.completed(read),
{
}

/// A probe that awaits no source is complete.
proof fn lemma_probe_done(probe: SensorProbe, read: spec_fn(SensorSource) -> Reading)
    requires
        probe.awaited() is None,
    ensures
        probe.completed(read) == probe,
        remaining(probe) == 0,
{
}

/// A query that has had every source it awaited answered holds, probe by
/// probe, what each probe completes to on its own.
pub proof fn lemma_query_completes(query: FanInfoQuery, read: spec_fn(SensorSource) -> Reading)
    ensures
        query.completed(read) == (FanInfoQuery {
            cpu_temp: query.cpu_temp.completed(read),
            gpu_temp: query.gpu_temp.completed(read),
            cpu_fan: query.cpu_fan.completed(read),
            gpu_fan: query.gpu_fan.completed(read),
            fan_mode: query.fan_mode.completed(read),
            cooler_boost: query.cooler_boost.completed(read),
        }),
        query.completed(read).awaited() is None,
    decreases query.outstanding(),
{
    if query.cpu_temp.awaited() is Some {
        lemma_probe_step(query.cpu_temp, read);
    } else {
        lemma_probe_done(query.cpu_temp, read);
    }
    if query.gpu_temp.awaited() is Some {
        lemma_probe_step(query.gpu_temp, read);
    } else {
        lemma_probe_done(query.gpu_temp, read);
    }
    if query.cpu_fan.awaited() is Some {
        lemma_probe_step(query.cpu_fan, read);
    } else {
        lemma_probe_done(query.cpu_fan, read);
    }
    if query.gpu_fan.awaited() is Some {
        lemma_probe_step(query.gpu_fan, read);
    } else {
        lemma_probe_done(query.gpu_fan, read);
    }
    if query.fan_mode.awaited() is Some {
        lemma_probe_step(query.fan_mode, read);
    } else {
        lemma_probe_done(query.fan_mode, read);
    }
    if query.cooler_boost.awaited() is Some {
        lemma_probe_step(query.cooler_boost, read);
    } else {
        lemma_probe_done(query.cooler_boost, read);
    }
    match query.awaited() {
        Some(source) => {
            let after = query.supplied(read(source));
            assert(after.outstanding() < query.outstanding());
            lemma_query_completes(after, read);
        },
        None => {},
    }
}

/// A fresh query, once every source it awaited has answered, reports for
/// each quantity its resolved value: the first accepted reading in the
/// order of the quantity's sources, or zero.
pub proof fn lemma_fresh_query_resolves(read: spec_fn(SensorSource) -> Reading)
    ensures
        FanInfoQuery::fresh().completed(read).reported() == (SensorBytes {
            cpu_temp: resolved(Quantity::CpuTemp, read),
            gpu_temp: resolved(Quantity::GpuTemp, read),
            cpu_fan: resolved(Quantity::CpuFan, read),
            gpu_fan: resolved(Quantity::GpuFan, read),
            fan_mode: resolved(Quantity::FanMode, read),
            cooler_boost: resolved(Quantity::CoolerBoost, read),
        }),
{
    lemma_query_completes(FanInfoQuery::fresh(), read);
    lemma_fresh_probe_resolves(Quantity::CpuTemp, read);
    lemma_fresh_probe_resolves(Quantity::GpuTemp, read);
    lemma_fresh_probe_resolves(Quantity::CpuFan, read);
    lemma_fresh_probe_resolves(Quantity::GpuFan, read);
    lemma_fresh_probe_resolves(Quantity::FanMode, read);
    lemma_fresh_probe_resolves(Quantity::CoolerBoost, read);
}

/// The directory of the hardware monitors.
pub const HWMON_BASE_PATH: &'static str = "/sys/class/hwmon";

/// The file of a hardware monitor that names it.
pub const HWMON_NAME_FILE: &'static str = "name";

/// The file of a hardware monitor that holds its first temperature.
pub const HWMON_TEMP_FILE: &'static str = "temp1_input";

/// The path of a thermal zone's temperature.
pub open spec fn zone_path(zone: u8) -> Seq<char> {
    "/sys/class/thermal/thermal_zone"@ + decimal_text(zone as nat) + "/temp"@
}

/// The path of a thermal zone's temperature.
pub fn thermal_zone_path(zone: u8) -> (path: String)
    ensures
        path@ == zone_path(zone),
{
    let mut path = String::from_str("/sys/class/thermal/thermal_zone");
    let digits = format_u8(zone);
    path.append(digits.as_str());
    path.append("/temp");
    path
}

/// Whether the content of a monitor's name file names the CPU's monitor:
/// `coretemp` within surrounding spaces.
pub open spec fn names_cpu_monitor(name: Seq<char>) -> bool {
    trimmed(name) == "coretemp"@
}

/// Whether the content of a monitor's name file names a graphics driver:
/// whether it holds `nvidia`, `amdgpu` or `nouveau`, in capitals or not.
pub open spec fn names_gpu_monitor(name: Seq<char>) -> bool {
    contains_text(lowered(name), "nvidia"@) || contains_text(lowered(name), "amdgpu"@)
        || contains_text(lowered(name), "nouveau"@)
}

/// Whether the content of a monitor's name file names the CPU's monitor.
pub fn is_cpu_monitor(name: &str) -> (found: bool)
    ensures
        found == names_cpu_monitor(name@),
{
    let chars = chars_of(name);
    let (start, end) = trim_bounds(&chars);
    matches_exactly(&chars, start, end, "coretemp")
}

/// Whether the content of a monitor's name file names a graphics driver.
pub fn is_gpu_monitor(name: &str) -> (found: bool)
    ensures
        found == names_gpu_monitor(name@),
{
    let chars = chars_of(name);
    contains_keyword(&chars, "nvidia") || contains_keyword(&chars, "amdgpu") || contains_keyword(
        &chars,
        "nouveau",
    )
}

/// A hardware monitor as it was found: the content of its name file and
/// what its first temperature was read as.
#[derive(Debug)]
pub struct Monitor {
    pub name: String,
    pub temperature: Reading,
}

/// The reading of the CPU's monitor among the monitors from index `from`
/// on: that of the first monitor named `coretemp`, whatever it gave.
/// Without such a monitor there is no reading.
pub open spec fn cpu_monitor_reading(monitors: Seq<Monitor>, from: int) -> Reading
    decreases monitors.len() - from,
{
    if from < 0 || from >= monitors.len() {
        Reading::Unavailable
    } else if names_cpu_monitor(monitors[from].name@) {
        monitors[from].temperature
    } else {
        cpu_monitor_reading(monitors, from + 1)
    }
}

/// The reading of the graphics monitors from index `from` on: that of the
/// first monitor of a graphics driver that gave a reading. A graphics
/// monitor without a reading is passed over.
pub open spec fn gpu_monitor_reading(monitors: Seq<Monitor>, from: int) -> Reading
    decreases monitors.len() - from,
{
    if from < 0 || from >= monitors.len() {
        Reading::Unavailable
    } else if names_gpu_monitor(monitors[from].name@) && monitors[from].temperature
        != Reading::Unavailable {
        monitors[from].temperature
    } else {
        gpu_monitor_reading(monitors, from + 1)
    }
}

/// The reading of the `Coretemp` source, given the monitors in the order
/// in which they were found.
pub fn read_cpu_temp_from_hwmon(monitors: &Vec<Monitor>) -> (reading: Reading)
    ensures
        reading == cpu_monitor_reading(monitors@, 0),
{
    let mut i: usize = 0;
    while i < monitors.len()
        invariant
            i <= monitors@.len(),
            cpu_monitor_reading(monitors@, 0) == cpu_monitor_reading(monitors@, i as int),
        decreases monitors@.len() - i,
    {
        if is_cpu_monitor(monitors[i].name.as_str()) {
            return monitors[i].temperature;
        }
        i += 1;
    }
    Reading::Unavailable
}

/// The reading of the `GpuHwmon` source, given the monitors in the order
/// in which they were found.
pub fn read_gpu_temp_from_hwmon(monitors: &Vec<Monitor>) -> (reading: Reading)
    ensures
        reading == gpu_monitor_reading(monitors@, 0),
{
    let mut i: usize = 0;
    while i < monitors.len()
        invariant
            i <= monitors@.len(),
            gpu_monitor_reading(monitors@, 0) == gpu_monitor_reading(monitors@, i as int),
        decreases monitors@.len() - i,
    {
        if is_gpu_monitor(monitors[i].name.as_str()) {
            match monitors[i].temperature {
                Reading::Unavailable => {},
                found => {
                    return found;
                },
            }
        }
        i += 1;
    }
    Reading::Unavailable
}

/// The reading that the content of a temperature file amounts to: a
/// number of millidegrees within surrounding spaces, or nothing.
pub open spec fn reading_from(content: Seq<char>) -> Reading {
    match signed_integer(trimmed(content)) {
        Some(millidegrees) => Reading::Millidegrees(millidegrees),
        None => Reading::Unavailable,
    }
}

/// The reading that the content of a temperature file amounts to.
pub fn read_millidegrees(content: &str) -> (reading: Reading)
    ensures
        reading == reading_from(content@),
{
    let chars = chars_of(content);
    let (start, end) = trim_bounds(&chars);
    match parse_i32(&chars, start, end) {
        Some(millidegrees) => Reading::Millidegrees(millidegrees),
        None => Reading::Unavailable,
    }
}

} // verus!
