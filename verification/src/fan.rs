//! Fan modes, fan curves and the speed a curve prescribes for a temperature.

use crate::ec::{
    EcError, MSI_ADDRESS_COOLER_BOOST, MSI_ADDRESS_FAN1_BASE, MSI_ADDRESS_FAN2_BASE,
    MSI_ADDRESS_FAN_MODE,
};
use crate::registers::EcOp;
use crate::scenario::ScenarioSettings;
use crate::text::{decimal_text, format_u8};
use vstd::prelude::*;
use vstd::string::StringExecFns;

verus! {

/// How the embedded controller drives the fans.
#[derive(Debug, Clone, Copy, PartialEq, Eq, Structural)]
pub enum FanMode {
    Auto,
    Silent,
    Basic,
    Advanced,
}

impl FanMode {
    /// The numeric code of a mode, as stored in the fan mode register.
    pub open spec fn code(self) -> u8 {
        match self {
            FanMode::Auto => 0,
            FanMode::Silent => 1,
            FanMode::Basic => 2,
            FanMode::Advanced => 3,
        }
    }

    /// The mode a byte stands for; any byte above 3 stands for `Auto`.
    pub open spec fn decode(value: u8) -> FanMode {
        if value == 1 {
            FanMode::Silent
        } else if value == 2 {
            FanMode::Basic
        } else if value == 3 {
            FanMode::Advanced
        } else {
            FanMode::Auto
        }
    }

    /// Encodes the mode as its register byte.
    pub fn to_byte(self) -> (byte: u8)
        ensures
            byte == self.code(),
    {
        match self {
            FanMode::Auto => 0,
            FanMode::Silent => 1,
            FanMode::Basic => 2,
            FanMode::Advanced => 3,
        }
    }

    /// Decodes a byte; out-of-range bytes decode as `Auto`.
    pub fn from_byte(value: u8) -> (mode: FanMode)
        ensures
            mode == FanMode::decode(value),
    {
        match value {
            1 => FanMode::Silent,
            2 => FanMode::Basic,
            3 => FanMode::Advanced,
            _ => FanMode::Auto,
        }
    }
}

/// One point of a fan curve: at `temp` degrees Celsius the fan runs at
/// `speed` percent.
#[derive(Debug, Clone, Copy, PartialEq, Eq, Structural)]
pub struct FanCurvePoint {
    pub temp: u8,
    pub speed: u8,
}

impl FanCurvePoint {
    /// Both coordinates lie in `0..=100`.
    pub open spec fn in_range(self) -> bool {
        self.temp <= 100 && self.speed <= 100
    }
}

/// A piecewise-linear map from temperature to fan speed.
#[derive(Debug)]
pub struct FanCurve {
    pub points: Vec<FanCurvePoint>,
}

impl View for FanCurve {
    type V = Seq<FanCurvePoint>;

    open spec fn view(&self) -> Seq<FanCurvePoint> {
        self.points@
    }
}

impl Clone for FanCurve {
    fn clone(&self) -> (copy: FanCurve)
        ensures
            copy@ == self@,
    {
        FanCurve { points: self.points.clone() }
    }
}

impl Default for FanCurve {
    /// The balanced preset.
    fn default() -> (curve: FanCurve)
        ensures
            curve@ == FanCurve::default_points(),
    {
        let points = vec![
            FanCurvePoint { temp: 40, speed: 0 },
            FanCurvePoint { temp: 50, speed: 30 },
            FanCurvePoint { temp: 60, speed: 50 },
            FanCurvePoint { temp: 70, speed: 70 },
            FanCurvePoint { temp: 80, speed: 90 },
            FanCurvePoint { temp: 90, speed: 100 },
        ];
        assert(points@ =~= FanCurve::default_points());
        FanCurve { points }
    }
}

/// The number of curve points the embedded controller stores per fan.
pub const CURVE_SLOTS: usize = 6;

/// Speed reported for a curve without points.
pub const FALLBACK_SPEED: u8 = 50;

/// Temperatures never decrease along the sequence.
pub open spec fn temps_sorted(points: Seq<FanCurvePoint>) -> bool {
    forall|i: int, j: int| 0 <= i <= j < points.len() ==> points[i].temp <= points[j].temp
}

/// Temperatures strictly increase along the sequence.
pub open spec fn temps_increasing(points: Seq<FanCurvePoint>) -> bool {
    forall|i: int, j: int| 0 <= i < j < points.len() ==> points[i].temp < points[j].temp
}

/// Speeds never decrease along the sequence.
pub open spec fn speeds_sorted(points: Seq<FanCurvePoint>) -> bool {
    forall|i: int, j: int| 0 <= i <= j < points.len() ==> points[i].speed <= points[j].speed
}

/// Every point has both coordinates in `0..=100`.
pub open spec fn points_in_range(points: Seq<FanCurvePoint>) -> bool {
    forall|i: int| 0 <= i < points.len() ==> (#[trigger] points[i]).in_range()
}

/// A curve the controller accepts as it is: at most six points, each in
/// range, with strictly increasing temperatures.
pub open spec fn well_formed(points: Seq<FanCurvePoint>) -> bool {
    &&& points.len() <= CURVE_SLOTS
    &&& points_in_range(points)
    &&& temps_increasing(points)
}

/// A value held within `0..=100`.
pub open spec fn clamp_percent(value: int) -> int {
    if value < 0 {
        0
    } else if value > 100 {
        100
    } else {
        value
    }
}

/// The speed on the straight line through `lo` and `hi` at `temp`, rounded
/// down and held within `0..=100`. Where the two points share a temperature
/// the line is a step and the right point decides.
pub open spec fn interpolate(lo: FanCurvePoint, hi: FanCurvePoint, temp: int) -> int {
    if hi.temp <= lo.temp {
        hi.speed as int
    } else {
        clamp_percent(
            (lo.speed * (hi.temp - lo.temp) + (temp - lo.temp) * (hi.speed - lo.speed)) / (hi.temp
                - lo.temp),
        )
    }
}

/// The index of the first segment, at or after `from`, whose right end lies
/// at or above `temp`.
pub open spec fn bracket(points: Seq<FanCurvePoint>, temp: int, from: int) -> int
    decreases points.len() - from,
{
    if from + 1 >= points.len() || points[from + 1].temp >= temp {
        from
    } else {
        bracket(points, temp, from + 1)
    }
}

/// The speed a curve prescribes at `temp`.
///
/// An empty curve prescribes the fallback speed. At or below the first
/// point the first speed holds, at or above the last point the last speed.
/// In between, the speed is interpolated on the first segment that reaches
/// `temp`.
pub open spec fn speed_at(points: Seq<FanCurvePoint>, temp: int) -> int {
    if points.len() == 0 {
        FALLBACK_SPEED as int
    } else if temp <= points[0].temp {
        points[0].speed as int
    } else if temp >= points.last().temp {
        points.last().speed as int
    } else {
        let i = bracket(points, temp, 0);
        interpolate(points[i], points[i + 1], temp)
    }
}

/// While every right end up to `upto` lies below `temp`, the search from the
/// start and the search from `upto` find the same segment.
pub proof fn lemma_bracket_skips(points: Seq<FanCurvePoint>, temp: int, from: int, upto: int)
    requires
        0 <= from <= upto,
        upto + 1 < points.len(),
        forall|j: int| from < j <= upto ==> (#[trigger] points[j]).temp < temp,
    ensures
        bracket(points, temp, from) == bracket(points, temp, upto),
    decreases upto - from,
{
    if from < upto {
        lemma_bracket_skips(points, temp, from + 1, upto);
    }
}

/// Where each point's temperature exceeds that of the point before it,
/// temperatures increase along the whole sequence.
pub proof fn lemma_neighbours_increasing(points: Seq<FanCurvePoint>)
    requires
        forall|j: int| 0 < j < points.len() ==> points[j - 1].temp < (#[trigger] points[j]).temp,
    ensures
        temps_increasing(points),
{
    assert forall|i: int, j: int| 0 <= i < j < points.len() implies points[i].temp
        < points[j].temp by {
        lemma_rises_between(points, i, j);
    }
}

/// From one point to a later one the temperature rises, where it rises
/// from each point to the next.
proof fn lemma_rises_between(points: Seq<FanCurvePoint>, i: int, j: int)
    requires
        forall|j: int| 0 < j < points.len() ==> points[j - 1].temp < (#[trigger] points[j]).temp,
        0 <= i < j < points.len(),
    ensures
        points[i].temp < points[j].temp,
    decreases j - i,
{
    if i + 1 < j {
        lemma_rises_between(points, i, j - 1);
    }
    assert(points[j - 1].temp < points[j].temp);
}

impl FanCurve {
    /// The quiet preset.
    pub open spec fn silent_points() -> Seq<FanCurvePoint> {
        seq![
            FanCurvePoint { temp: 50, speed: 0 },
            FanCurvePoint { temp: 60, speed: 20 },
            FanCurvePoint { temp: 70, speed: 40 },
            FanCurvePoint { temp: 80, speed: 60 },
            FanCurvePoint { temp: 90, speed: 80 },
            FanCurvePoint { temp: 95, speed: 100 },
        ]
    }

    /// The balanced preset, which is also the default curve.
    pub open spec fn default_points() -> Seq<FanCurvePoint> {
        seq![
            FanCurvePoint { temp: 40, speed: 0 },
            FanCurvePoint { temp: 50, speed: 30 },
            FanCurvePoint { temp: 60, speed: 50 },
            FanCurvePoint { temp: 70, speed: 70 },
            FanCurvePoint { temp: 80, speed: 90 },
            FanCurvePoint { temp: 90, speed: 100 },
        ]
    }

    /// The preset that favours cooling.
    pub open spec fn performance_points() -> Seq<FanCurvePoint> {
        seq![
            FanCurvePoint { temp: 35, speed: 30 },
            FanCurvePoint { temp: 45, speed: 50 },
            FanCurvePoint { temp: 55, speed: 70 },
            FanCurvePoint { temp: 65, speed: 85 },
            FanCurvePoint { temp: 75, speed: 100 },
            FanCurvePoint { temp: 85, speed: 100 },
        ]
    }

    /// The quiet preset.
    pub fn silent() -> (curve: FanCurve)
        ensures
            curve@ == Self::silent_points(),
    {
        let points = vec![
            FanCurvePoint { temp: 50, speed: 0 },
            FanCurvePoint { temp: 60, speed: 20 },
            FanCurvePoint { temp: 70, speed: 40 },
            FanCurvePoint { temp: 80, speed: 60 },
            FanCurvePoint { temp: 90, speed: 80 },
            FanCurvePoint { temp: 95, speed: 100 },
        ];
        assert(points@ =~= Self::silent_points());
        FanCurve { points }
    }

    /// The preset that favours cooling.
    pub fn performance() -> (curve: FanCurve)
        ensures
            curve@ == Self::performance_points(),
    {
        let points = vec![
            FanCurvePoint { temp: 35, speed: 30 },
            FanCurvePoint { temp: 45, speed: 50 },
            FanCurvePoint { temp: 55, speed: 70 },
            FanCurvePoint { temp: 65, speed: 85 },
            FanCurvePoint { temp: 75, speed: 100 },
            FanCurvePoint { temp: 85, speed: 100 },
        ];
        assert(points@ =~= Self::performance_points());
        FanCurve { points }
    }

    /// Whether the controller accepts the curve as it is: at most six
    /// points, each in range, with strictly increasing temperatures.
    pub fn is_well_formed(&self) -> (valid: bool)
        ensures
            valid == well_formed(self@),
    {
        let n = self.points.len();
        if n > CURVE_SLOTS {
            return false;
        }
        let mut i: usize = 0;
        while i < n
            invariant
                n == self.points.len(),
                i <= n,
                forall|j: int| 0 <= j < i ==> (#[trigger] self@[j]).in_range(),
                forall|j: int| 0 < j < i ==> self@[j - 1].temp < (#[trigger] self@[j]).temp,
            decreases n - i,
        {
            let point = self.points[i];
            if point.temp > 100 || point.speed > 100 {
                assert(!self@[i as int].in_range());
                return false;
            }
            if i > 0 && self.points[i - 1].temp >= point.temp {
                assert(!(self@[i - 1].temp < self@[i as int].temp));
                return false;
            }
            i += 1;
        }
        proof {
            lemma_neighbours_increasing(self@);
        }
        true
    }

    /// The speed, in percent, that the curve prescribes at `temp`.
    pub fn get_speed_for_temp(&self, temp: u8) -> (speed: u8)
        ensures
            speed == speed_at(self@, temp as int),
    {
        let n = self.points.len();
        if n == 0 {
            return FALLBACK_SPEED;
        }
        if temp <= self.points[0].temp {
            return self.points[0].speed;
        }
        if temp >= self.points[n - 1].temp {
            return self.points[n - 1].speed;
        }
        let mut i: usize = 0;
        while self.points[i + 1].temp < temp
            invariant
                n == self.points.len(),
                i + 1 < n,
                temp < self.points[n - 1].temp,
                forall|j: int| 0 <= j <= i ==> (#[trigger] self.points[j]).temp < temp,
            decreases n - i,
        {
            i += 1;
        }
        let lo = self.points[i];
        let hi = self.points[i + 1];
        proof {
            lemma_bracket_skips(self@, temp as int, 0, i as int);
        }
        interpolate_speed(lo, hi, temp)
    }
}

/// The interpolated speed between two points whose temperatures enclose
/// `temp`.
fn interpolate_speed(lo: FanCurvePoint, hi: FanCurvePoint, temp: u8) -> (speed: u8)
    requires
        lo.temp < temp <= hi.temp,
    ensures
        speed == interpolate(lo, hi, temp as int),
{
    let range: u32 = (hi.temp - lo.temp) as u32;
    let offset: u32 = (temp - lo.temp) as u32;
    assert(lo.speed * range <= 255 * 255) by (nonlinear_arith)
        requires
            lo.speed <= 255,
            range <= 255,
    ;
    let base: u32 = lo.speed as u32 * range;
    let scaled: u32 = if hi.speed >= lo.speed {
        let rise: u32 = (hi.speed - lo.speed) as u32;
        assert(offset * rise <= 255 * 255) by (nonlinear_arith)
            requires
                offset <= 255,
                rise <= 255,
        ;
        base + offset * rise
    } else {
        let fall: u32 = (lo.speed - hi.speed) as u32;
        assert(offset * fall <= base) by (nonlinear_arith)
            requires
                base == lo.speed * range,
                offset <= range,
                fall <= lo.speed,
        ;
        assert(offset * (hi.speed - lo.speed) == -(offset * fall)) by (nonlinear_arith)
            requires
                fall == lo.speed - hi.speed,
        ;
        base - offset * fall
    };
    let value: u32 = scaled / range;
    if value > 100 {
        100
    } else {
        value as u8
    }
}

/// Why a fan operation was refused or failed.
#[derive(Debug, Clone, PartialEq, Eq)]
pub enum FanError {
    /// The embedded controller failed.
    EcError(EcError),
    /// A fan speed above 100 percent was asked for.
    InvalidSpeed(u8),
    /// The named fan does not exist.
    FanNotFound(String),
    /// The hardware monitoring interface failed.
    HwmonError(String),
}

impl FanError {
    /// What the error says to the user.
    pub open spec fn text(self) -> Seq<char> {
        match self {
            FanError::EcError(error) => "EC error: "@ + error.text(),
            FanError::InvalidSpeed(speed) => "Invalid fan speed: "@ + decimal_text(speed as nat),
            FanError::FanNotFound(fan) => "Fan not found: "@ + fan@,
            FanError::HwmonError(reason) => "Hwmon interface error: "@ + reason@,
        }
    }

    /// What the error says to the user.
    pub fn to_string(&self) -> (message: String)
        ensures
            message@ == self.text(),
    {
        match self {
            FanError::EcError(error) => {
                let mut message = String::from_str("EC error: ");
                let inner = error.to_string();
                message.append(inner.as_str());
                message
            },
            FanError::InvalidSpeed(speed) => {
                let mut message = String::from_str("Invalid fan speed: ");
                let digits = format_u8(*speed);
                message.append(digits.as_str());
                message
            },
            FanError::FanNotFound(fan) => {
                let mut message = String::from_str("Fan not found: ");
                message.append(fan.as_str());
                message
            },
            FanError::HwmonError(reason) => {
                let mut message = String::from_str("Hwmon interface error: ");
                message.append(reason.as_str());
                message
            },
        }
    }
}

/// What the fans and sensors report.
#[derive(Debug, Clone, Copy, PartialEq, Eq, Structural)]
pub struct FanInfo {
    pub cpu_fan_rpm: u32,
    pub gpu_fan_rpm: u32,
    pub cpu_fan_percent: u8,
    pub gpu_fan_percent: u8,
    pub cpu_temp: u8,
    pub gpu_temp: u8,
    pub fan_mode: FanMode,
    pub cooler_boost: bool,
}

/// The bytes that the sensors resolved to, one per quantity.
#[derive(Debug, Clone, Copy, PartialEq, Eq, Structural)]
pub struct SensorBytes {
    pub cpu_temp: u8,
    pub gpu_temp: u8,
    /// The CPU fan's tachometer byte; zero where none was read.
    pub cpu_fan: u8,
    /// The GPU fan's tachometer byte; zero where none was read.
    pub gpu_fan: u8,
    /// The fan mode register.
    pub fan_mode: u8,
    /// The cooler boost register.
    pub cooler_boost: u8,
}

/// The bits of the fan mode register that hold the mode.
pub const FAN_MODE_MASK: u8 = 0x0F;

/// The tachometer byte that stands for full speed.
pub const TACH_FULL_SCALE: u32 = 150;

/// Revolutions per minute for a tachometer byte.
pub open spec fn tach_rpm(raw: u8) -> u32 {
    (raw * 100) as u32
}

/// Percent of full speed for a tachometer byte: `raw * 100 / 150`, rounded
/// down and held at 100.
pub open spec fn tach_percent(raw: u8) -> u8 {
    if raw * 100 / 150 > 100 {
        100
    } else {
        (raw * 100 / 150) as u8
    }
}

/// The fan mode that the fan mode register holds, in its low nibble.
pub open spec fn mode_in_register(raw: u8) -> FanMode {
    FanMode::decode(raw & FAN_MODE_MASK)
}

/// What the resolved bytes amount to.
pub open spec fn fan_info_from(bytes: SensorBytes) -> FanInfo {
    FanInfo {
        cpu_fan_rpm: tach_rpm(bytes.cpu_fan),
        gpu_fan_rpm: tach_rpm(bytes.gpu_fan),
        cpu_fan_percent: tach_percent(bytes.cpu_fan),
        gpu_fan_percent: tach_percent(bytes.gpu_fan),
        cpu_temp: bytes.cpu_temp,
        gpu_temp: bytes.gpu_temp,
        fan_mode: mode_in_register(bytes.fan_mode),
        cooler_boost: bytes.cooler_boost & COOLER_BOOST_BIT != 0,
    }
}

/// Revolutions per minute for a tachometer byte.
pub fn calculate_rpm(raw_value: u8) -> (rpm: u32)
    ensures
        rpm == tach_rpm(raw_value),
{
    if raw_value == 0 {
        return 0;
    }
    (raw_value as u32) * 100
}

/// Revolutions per minute and percent of full speed for a tachometer byte.
pub fn read_fan_rpm_from_ec(raw: u8) -> (speed: (u32, u8))
    ensures
        speed == (tach_rpm(raw), tach_percent(raw)),
{
    let rpm = calculate_rpm(raw);
    let scaled: u32 = rpm / TACH_FULL_SCALE;
    let percent: u8 = if scaled > 100 {
        100
    } else {
        scaled as u8
    };
    (rpm, percent)
}

/// Decoding the fan mode register and encoding the mode again gives the
/// low nibble of the register where that is a mode's code, and zero
/// otherwise.
pub proof fn lemma_fan_mode_register(raw: u8)
    ensures
        mode_in_register(raw).code() == if raw & FAN_MODE_MASK <= 3 {
            raw & FAN_MODE_MASK
        } else {
            0
        },
{
}

/// Encoding a fan mode and decoding its code gives the mode back.
pub proof fn lemma_fan_mode_round_trip(mode: FanMode)
    ensures
        FanMode::decode(mode.code()) == mode,
{
}

/// The bit of the cooler boost register that switches the boost.
pub const COOLER_BOOST_BIT: u8 = 0x80;

/// The duty cycle byte for a speed in percent: `speed * 255 / 100`, rounded
/// down. Speeds above 100 wrap around as byte arithmetic does.
pub open spec fn pwm(speed: u8) -> u8 {
    ((speed * 255) / 100 % 256) as u8
}

/// The number of points of a curve that are written to the controller.
pub open spec fn programmed(count: nat) -> nat {
    if count < CURVE_SLOTS {
        count
    } else {
        CURVE_SLOTS as nat
    }
}

/// The `k`-th write of a curve: temperatures at even offsets from `base`,
/// duty cycles at odd ones.
pub open spec fn curve_op(base: u8, points: Seq<FanCurvePoint>, k: int) -> EcOp {
    if k % 2 == 0 {
        EcOp::Write { address: (base + k) as u8, value: points[k / 2].temp }
    } else {
        EcOp::Write { address: (base + k) as u8, value: pwm(points[k / 2].speed) }
    }
}

/// The writes that program a curve at `base`: one pair per point, for the
/// first six points at most. Slots beyond the curve's length are left as
/// they are.
pub open spec fn curve_plan(base: u8, points: Seq<FanCurvePoint>) -> Seq<EcOp> {
    Seq::new(2 * programmed(points.len()), |k: int| curve_op(base, points, k))
}

/// The `k`-th write after the mode switch of a manual speed setting: for
/// each slot in turn a zero temperature and the duty cycle for the CPU fan,
/// then the same for the GPU fan.
pub open spec fn manual_op(cpu_percent: u8, gpu_percent: u8, k: int) -> EcOp {
    let slot = k / 4;
    if k % 4 == 0 {
        EcOp::Write { address: (MSI_ADDRESS_FAN1_BASE + 2 * slot) as u8, value: 0 }
    } else if k % 4 == 1 {
        EcOp::Write {
            address: (MSI_ADDRESS_FAN1_BASE + 2 * slot + 1) as u8,
            value: pwm(cpu_percent),
        }
    } else if k % 4 == 2 {
        EcOp::Write { address: (MSI_ADDRESS_FAN2_BASE + 2 * slot) as u8, value: 0 }
    } else {
        EcOp::Write {
            address: (MSI_ADDRESS_FAN2_BASE + 2 * slot + 1) as u8,
            value: pwm(gpu_percent),
        }
    }
}

/// The plan that pins both fans at fixed speeds: switch to the advanced
/// mode, then flatten both curves at the given duty cycles.
pub open spec fn manual_plan(cpu_percent: u8, gpu_percent: u8) -> Seq<EcOp> {
    seq![EcOp::Write { address: MSI_ADDRESS_FAN_MODE, value: FanMode::Advanced.code() }]
        + Seq::new(4 * CURVE_SLOTS as nat, |k: int| manual_op(cpu_percent, gpu_percent, k))
}

/// The duty cycle byte for a speed in percent.
pub fn pwm_from_percent(speed: u8) -> (duty: u8)
    ensures
        duty == pwm(speed),
{
    let scaled: u16 = (speed as u16 * 255) / 100;
    (scaled % 256) as u8
}

/// Plans the fan operations and remembers the curves last programmed.
#[derive(Debug)]
pub struct FanController {
    cpu_curve: FanCurve,
    gpu_curve: FanCurve,
}

impl FanController {
    /// The CPU curve the controller remembers.
    pub closed spec fn cpu_points(&self) -> Seq<FanCurvePoint> {
        self.cpu_curve@
    }

    /// The GPU curve the controller remembers.
    pub closed spec fn gpu_points(&self) -> Seq<FanCurvePoint> {
        self.gpu_curve@
    }

    /// A controller that remembers the default curve for both fans.
    pub fn new() -> (controller: FanController)
        ensures
            controller.cpu_points() == FanCurve::default_points(),
            controller.gpu_points() == FanCurve::default_points(),
    {
        FanController { cpu_curve: FanCurve::default(), gpu_curve: FanCurve::default() }
    }

    /// What the resolved sensor bytes amount to.
    pub fn get_fan_info(&self, bytes: SensorBytes) -> (info: FanInfo)
        ensures
            info == fan_info_from(bytes),
    {
        let (cpu_fan_rpm, cpu_fan_percent) = read_fan_rpm_from_ec(bytes.cpu_fan);
        let (gpu_fan_rpm, gpu_fan_percent) = read_fan_rpm_from_ec(bytes.gpu_fan);
        FanInfo {
            cpu_fan_rpm,
            gpu_fan_rpm,
            cpu_fan_percent,
            gpu_fan_percent,
            cpu_temp: bytes.cpu_temp,
            gpu_temp: bytes.gpu_temp,
            fan_mode: FanMode::from_byte(bytes.fan_mode & FAN_MODE_MASK),
            cooler_boost: (bytes.cooler_boost & COOLER_BOOST_BIT) != 0,
        }
    }

    /// The plan that switches the fan mode.
    pub fn set_fan_mode(&self, mode: FanMode) -> (plan: Vec<EcOp>)
        ensures
            plan@ == seq![EcOp::Write { address: MSI_ADDRESS_FAN_MODE, value: mode.code() }],
    {
        let plan = vec![EcOp::Write { address: MSI_ADDRESS_FAN_MODE, value: mode.to_byte() }];
        assert(plan@ =~= seq![
            EcOp::Write { address: MSI_ADDRESS_FAN_MODE, value: mode.code() },
        ]);
        plan
    }

    /// The plan that switches the cooler boost and leaves the other bits of
    /// its register as they are.
    pub fn set_cooler_boost(&self, enabled: bool) -> (plan: Vec<EcOp>)
        ensures
            plan@ == seq![
                EcOp::Update {
                    address: MSI_ADDRESS_COOLER_BOOST,
                    mask: COOLER_BOOST_BIT,
                    set: enabled,
                },
            ],
    {
        let plan = vec![
            EcOp::Update { address: MSI_ADDRESS_COOLER_BOOST, mask: COOLER_BOOST_BIT, set: enabled },
        ];
        assert(plan@ =~= seq![
            EcOp::Update { address: MSI_ADDRESS_COOLER_BOOST, mask: COOLER_BOOST_BIT, set: enabled },
        ]);
        plan
    }

    /// The plan that programs the CPU fan curve.
    pub fn set_cpu_fan_curve(&self, curve: &FanCurve) -> (plan: Vec<EcOp>)
        ensures
            plan@ == curve_plan(MSI_ADDRESS_FAN1_BASE, curve@),
    {
        apply_fan_curve(MSI_ADDRESS_FAN1_BASE, curve)
    }

    /// The plan that programs the GPU fan curve.
    pub fn set_gpu_fan_curve(&self, curve: &FanCurve) -> (plan: Vec<EcOp>)
        ensures
            plan@ == curve_plan(MSI_ADDRESS_FAN2_BASE, curve@),
    {
        apply_fan_curve(MSI_ADDRESS_FAN2_BASE, curve)
    }

    /// Remembers `curve` as the CPU curve, once its plan has been carried
    /// out.
    pub fn record_cpu_curve(&mut self, curve: FanCurve)
        ensures
            final(self).cpu_points() == curve@,
            final(self).gpu_points() == old(self).gpu_points(),
    {
        self.cpu_curve = curve;
    }

    /// Remembers `curve` as the GPU curve, once its plan has been carried
    /// out.
    pub fn record_gpu_curve(&mut self, curve: FanCurve)
        ensures
            final(self).gpu_points() == curve@,
            final(self).cpu_points() == old(self).cpu_points(),
    {
        self.gpu_curve = curve;
    }

    /// Remembers the curves of `settings`, once the plan that applies the
    /// settings has been carried out. A curve that the settings do not
    /// hold was not programmed, and the curve remembered for that fan stays.
    pub fn record_settings(&mut self, settings: &ScenarioSettings)
        ensures
            final(self).cpu_points() == match settings@.cpu_fan_curve {
                Some(points) => points,
                None => old(self).cpu_points(),
            },
            final(self).gpu_points() == match settings@.gpu_fan_curve {
                Some(points) => points,
                None => old(self).gpu_points(),
            },
    {
        if let Some(curve) = &settings.cpu_fan_curve {
            self.cpu_curve = curve.clone();
        }
        if let Some(curve) = &settings.gpu_fan_curve {
            self.gpu_curve = curve.clone();
        }
    }

    /// The plan that pins both fans at fixed speeds, or `InvalidSpeed` with
    /// the larger of the two speeds when either exceeds 100 percent.
    pub fn set_manual_fan_speed(&self, cpu_percent: u8, gpu_percent: u8) -> (planned: Result<
        Vec<EcOp>,
        FanError,
    >)
        ensures
            cpu_percent <= 100 && gpu_percent <= 100 ==> planned is Ok && planned->Ok_0@
                == manual_plan(cpu_percent, gpu_percent),
            cpu_percent > 100 || gpu_percent > 100 ==> planned == Err::<Vec<EcOp>, FanError>(
                FanError::InvalidSpeed(
                    if cpu_percent >= gpu_percent {
                        cpu_percent
                    } else {
                        gpu_percent
                    },
                ),
            ),
    {
        if cpu_percent > 100 || gpu_percent > 100 {
            let worst = if cpu_percent >= gpu_percent {
                cpu_percent
            } else {
                gpu_percent
            };
            return Err(FanError::InvalidSpeed(worst));
        }
        let cpu_value = pwm_from_percent(cpu_percent);
        let gpu_value = pwm_from_percent(gpu_percent);
        let mut plan: Vec<EcOp> = Vec::new();
        plan.push(EcOp::Write { address: MSI_ADDRESS_FAN_MODE, value: FanMode::Advanced.to_byte() });
        let ghost head = plan@;
        let mut slot: u8 = 0;
        while slot < 6
            invariant
                slot <= 6,
                cpu_value == pwm(cpu_percent),
                gpu_value == pwm(gpu_percent),
                head == seq![
                    EcOp::Write { address: MSI_ADDRESS_FAN_MODE, value: FanMode::Advanced.code() },
                ],
                plan@ == head + Seq::new(
                    4 * slot as nat,
                    |k: int| manual_op(cpu_percent, gpu_percent, k),
                ),
            decreases 6 - slot,
        {
            let ghost before = plan@;
            plan.push(EcOp::Write { address: MSI_ADDRESS_FAN1_BASE + slot * 2, value: 0 });
            plan.push(EcOp::Write { address: MSI_ADDRESS_FAN1_BASE + slot * 2 + 1, value: cpu_value });
            plan.push(EcOp::Write { address: MSI_ADDRESS_FAN2_BASE + slot * 2, value: 0 });
            plan.push(EcOp::Write { address: MSI_ADDRESS_FAN2_BASE + slot * 2 + 1, value: gpu_value });
            proof {
                let k = 4 * slot as int;
                assert(manual_op(cpu_percent, gpu_percent, k) == plan@[1 + k]);
                assert(manual_op(cpu_percent, gpu_percent, k + 1) == plan@[2 + k]);
                assert(manual_op(cpu_percent, gpu_percent, k + 2) == plan@[3 + k]);
                assert(manual_op(cpu_percent, gpu_percent, k + 3) == plan@[4 + k]);
                assert(plan@ =~= head + Seq::new(
                    4 * (slot + 1) as nat,
                    |k: int| manual_op(cpu_percent, gpu_percent, k),
                ));
            }
            slot += 1;
        }
        Ok(plan)
    }

    /// The CPU curve the controller remembers.
    pub fn get_cpu_curve(&self) -> (curve: &FanCurve)
        ensures
            curve@ == self.cpu_points(),
    {
        &self.cpu_curve
    }

    /// The GPU curve the controller remembers.
    pub fn get_gpu_curve(&self) -> (curve: &FanCurve)
        ensures
            curve@ == self.gpu_points(),
    {
        &self.gpu_curve
    }

    /// The plan that hands the fans back to the controller: automatic mode,
    /// cooler boost off.
    pub fn reset_to_auto(&self) -> (plan: Vec<EcOp>)
        ensures
            plan@ == seq![
                EcOp::Write { address: MSI_ADDRESS_FAN_MODE, value: FanMode::Auto.code() },
                EcOp::Update { address: MSI_ADDRESS_COOLER_BOOST, mask: COOLER_BOOST_BIT, set: false },
            ],
    {
        let plan = vec![
            EcOp::Write { address: MSI_ADDRESS_FAN_MODE, value: FanMode::Auto.to_byte() },
            EcOp::Update { address: MSI_ADDRESS_COOLER_BOOST, mask: COOLER_BOOST_BIT, set: false },
        ];
        assert(plan@ =~= seq![
            EcOp::Write { address: MSI_ADDRESS_FAN_MODE, value: FanMode::Auto.code() },
            EcOp::Update { address: MSI_ADDRESS_COOLER_BOOST, mask: COOLER_BOOST_BIT, set: false },
        ]);
        plan
    }
}

/// The writes that program `curve` at `base_address`.
fn apply_fan_curve(base_address: u8, curve: &FanCurve) -> (plan: Vec<EcOp>)
    requires
        base_address <= 244,
    ensures
        plan@ == curve_plan(base_address, curve@),
{
    let num_points: usize = if curve.points.len() < CURVE_SLOTS {
        curve.points.len()
    } else {
        CURVE_SLOTS
    };
    let mut plan: Vec<EcOp> = Vec::new();
    let mut i: usize = 0;
    while i < num_points
        invariant
            i <= num_points,
            num_points == programmed(curve@.len()),
            num_points <= curve.points.len(),
            base_address <= 244,
            plan@ == Seq::new(2 * i as nat, |k: int| curve_op(base_address, curve@, k)),
        decreases num_points - i,
    {
        let point = curve.points[i];
        let temp_addr: u8 = base_address + (i * 2) as u8;
        let speed_addr: u8 = temp_addr + 1;
        plan.push(EcOp::Write { address: temp_addr, value: point.temp });
        plan.push(EcOp::Write { address: speed_addr, value: pwm_from_percent(point.speed) });
        proof {
            let k = 2 * i as int;
            assert(curve_op(base_address, curve@, k) == plan@[k]);
            assert(curve_op(base_address, curve@, k + 1) == plan@[k + 1]);
            assert(plan@ =~= Seq::new(
                2 * (i + 1) as nat,
                |k: int| curve_op(base_address, curve@, k),
            ));
        }
        i += 1;
    }
    plan
}

} // verus!
