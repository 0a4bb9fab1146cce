//! User scenarios: named bundles of settings, the plans that apply them and
//! the detection of the scenario that is in force.

use crate::ec::{
    select_backend, BackendProbe, EcError, EmbeddedController, MSI_ADDRESS_COOLER_BOOST,
    MSI_ADDRESS_FAN1_BASE, MSI_ADDRESS_FAN2_BASE, MSI_ADDRESS_FAN_MODE, MSI_ADDRESS_SHIFT_MODE,
    MSI_ADDRESS_SUPER_BATTERY,
};
use crate::fan::{
    curve_plan, FanController, FanCurve, FanCurvePoint, FanError, FanMode, COOLER_BOOST_BIT,
};
use crate::registers::EcOp;
use vstd::prelude::*;
use vstd::string::StringExecFns;

verus! {

/// The power and thermal profile of the machine.
#[derive(Debug, Clone, Copy, PartialEq, Eq, Structural)]
pub enum ShiftMode {
    EcoSilent,
    Comfort,
    Sport,
    Turbo,
}

impl ShiftMode {
    /// The byte that stands for the mode in the shift mode register.
    pub open spec fn code(self) -> u8 {
        match self {
            ShiftMode::EcoSilent => 0xC2,
            ShiftMode::Comfort => 0xC1,
            ShiftMode::Sport => 0xC0,
            ShiftMode::Turbo => 0xC4,
        }
    }

    /// The mode a byte stands for; a byte that is no mode's code stands for
    /// `Comfort`.
    pub open spec fn decode(value: u8) -> ShiftMode {
        if value == 0xC2 {
            ShiftMode::EcoSilent
        } else if value == 0xC0 {
            ShiftMode::Sport
        } else if value == 0xC4 {
            ShiftMode::Turbo
        } else {
            ShiftMode::Comfort
        }
    }

    /// The mode's name as shown to the user.
    pub open spec fn label(self) -> Seq<char> {
        match self {
            ShiftMode::EcoSilent => "Eco/Silent"@,
            ShiftMode::Comfort => "Comfort/Balanced"@,
            ShiftMode::Sport => "Sport/Performance"@,
            ShiftMode::Turbo => "Turbo/Extreme"@,
        }
    }

    /// The mode's name as shown to the user.
    pub fn to_string(&self) -> (name: String)
        ensures
            name@ == self.label(),
    {
        match self {
            ShiftMode::EcoSilent => String::from_str("Eco/Silent"),
            ShiftMode::Comfort => String::from_str("Comfort/Balanced"),
            ShiftMode::Sport => String::from_str("Sport/Performance"),
            ShiftMode::Turbo => String::from_str("Turbo/Extreme"),
        }
    }

    /// Encodes the mode as its register byte.
    pub fn to_byte(self) -> (byte: u8)
        ensures
            byte == self.code(),
    {
        match self {
            ShiftMode::EcoSilent => 0xC2,
            ShiftMode::Comfort => 0xC1,
            ShiftMode::Sport => 0xC0,
            ShiftMode::Turbo => 0xC4,
        }
    }

    /// Decodes a register byte; unknown bytes decode as `Comfort`.
    pub fn from_byte(value: u8) -> (mode: ShiftMode)
        ensures
            mode == ShiftMode::decode(value),
    {
        match value {
            0xC2 => ShiftMode::EcoSilent,
            0xC0 => ShiftMode::Sport,
            0xC4 => ShiftMode::Turbo,
            _ => ShiftMode::Comfort,
        }
    }
}

/// A byte that is no mode's code decodes as `Comfort`.
pub proof fn lemma_unknown_shift_byte(value: u8)
    requires
        value != 0xC0,
        value != 0xC1,
        value != 0xC2,
        value != 0xC4,
    ensures
        ShiftMode::decode(value) == ShiftMode::Comfort,
{
}

/// Encoding a shift mode and decoding its code gives the mode back.
pub proof fn lemma_shift_mode_round_trip(mode: ShiftMode)
    ensures
        ShiftMode::decode(mode.code()) == mode,
{
}

/// A scenario as the user names it.
#[derive(Debug, Clone, Copy, PartialEq, Eq, Structural)]
pub enum UserScenario {
    Silent,
    Balanced,
    HighPerformance,
    Turbo,
    SuperBattery,
    /// Settings of the user's own; no plan is derived from it.
    Custom,
}

impl UserScenario {
    /// The scenario's name as shown to the user.
    pub open spec fn label(self) -> Seq<char> {
        match self {
            UserScenario::Silent => "Silent"@,
            UserScenario::Balanced => "Balanced"@,
            UserScenario::HighPerformance => "High Performance"@,
            UserScenario::Turbo => "Turbo"@,
            UserScenario::SuperBattery => "Super Battery"@,
            UserScenario::Custom => "Custom"@,
        }
    }

    /// The scenario's name as shown to the user.
    pub fn to_string(&self) -> (name: String)
        ensures
            name@ == self.label(),
    {
        match self {
            UserScenario::Silent => String::from_str("Silent"),
            UserScenario::Balanced => String::from_str("Balanced"),
            UserScenario::HighPerformance => String::from_str("High Performance"),
            UserScenario::Turbo => String::from_str("Turbo"),
            UserScenario::SuperBattery => String::from_str("Super Battery"),
            UserScenario::Custom => String::from_str("Custom"),
        }
    }
}

/// The settings a scenario stands for. A curve that is absent is not
/// reprogrammed.
#[derive(Debug)]
pub struct ScenarioSettings {
    pub shift_mode: ShiftMode,
    pub fan_mode: FanMode,
    pub cooler_boost: bool,
    pub super_battery: bool,
    pub cpu_fan_curve: Option<FanCurve>,
    pub gpu_fan_curve: Option<FanCurve>,
}

/// Settings as plain values.
pub struct SettingsView {
    pub shift_mode: ShiftMode,
    pub fan_mode: FanMode,
    pub cooler_boost: bool,
    pub super_battery: bool,
    pub cpu_fan_curve: Option<Seq<FanCurvePoint>>,
    pub gpu_fan_curve: Option<Seq<FanCurvePoint>>,
}

/// The points of a curve that may be absent.
pub open spec fn curve_view(curve: Option<FanCurve>) -> Option<Seq<FanCurvePoint>> {
    match curve {
        Some(c) => Some(c@),
        None => None,
    }
}

impl View for ScenarioSettings {
    type V = SettingsView;

    open spec fn view(&self) -> SettingsView {
        SettingsView {
            shift_mode: self.shift_mode,
            fan_mode: self.fan_mode,
            cooler_boost: self.cooler_boost,
            super_battery: self.super_battery,
            cpu_fan_curve: curve_view(self.cpu_fan_curve),
            gpu_fan_curve: curve_view(self.gpu_fan_curve),
        }
    }
}

impl Clone for ScenarioSettings {
    fn clone(&self) -> (copy: ScenarioSettings)
        ensures
            copy@ == self@,
    {
        ScenarioSettings {
            shift_mode: self.shift_mode,
            fan_mode: self.fan_mode,
            cooler_boost: self.cooler_boost,
            super_battery: self.super_battery,
            cpu_fan_curve: match &self.cpu_fan_curve {
                Some(curve) => Some(curve.clone()),
                None => None,
            },
            gpu_fan_curve: match &self.gpu_fan_curve {
                Some(curve) => Some(curve.clone()),
                None => None,
            },
        }
    }
}

/// The settings of each scenario but `Custom`, which has none.
pub open spec fn settings_for(scenario: UserScenario) -> Option<SettingsView> {
    match scenario {
        UserScenario::Silent => Some(
            SettingsView {
                shift_mode: ShiftMode::EcoSilent,
                fan_mode: FanMode::Silent,
                cooler_boost: false,
                super_battery: false,
                cpu_fan_curve: Some(FanCurve::silent_points()),
                gpu_fan_curve: Some(FanCurve::silent_points()),
            },
        ),
        UserScenario::Balanced => Some(
            SettingsView {
                shift_mode: ShiftMode::Comfort,
                fan_mode: FanMode::Auto,
                cooler_boost: false,
                super_battery: false,
                cpu_fan_curve: Some(FanCurve::default_points()),
                gpu_fan_curve: Some(FanCurve::default_points()),
            },
        ),
        UserScenario::HighPerformance => Some(
            SettingsView {
                shift_mode: ShiftMode::Sport,
                fan_mode: FanMode::Basic,
                cooler_boost: false,
                super_battery: false,
                cpu_fan_curve: Some(FanCurve::performance_points()),
                gpu_fan_curve: Some(FanCurve::performance_points()),
            },
        ),
        UserScenario::Turbo => Some(
            SettingsView {
                shift_mode: ShiftMode::Turbo,
                fan_mode: FanMode::Advanced,
                cooler_boost: true,
                super_battery: false,
                cpu_fan_curve: Some(FanCurve::performance_points()),
                gpu_fan_curve: Some(FanCurve::performance_points()),
            },
        ),
        UserScenario::SuperBattery => Some(
            SettingsView {
                shift_mode: ShiftMode::EcoSilent,
                fan_mode: FanMode::Silent,
                cooler_boost: false,
                super_battery: true,
                cpu_fan_curve: Some(FanCurve::silent_points()),
                gpu_fan_curve: Some(FanCurve::silent_points()),
            },
        ),
        UserScenario::Custom => None,
    }
}

impl ScenarioSettings {
    /// The settings of the `Silent` scenario.
    pub fn silent() -> (settings: ScenarioSettings)
        ensures
            Some(settings@) == settings_for(UserScenario::Silent),
    {
        ScenarioSettings {
            shift_mode: ShiftMode::EcoSilent,
            fan_mode: FanMode::Silent,
            cooler_boost: false,
            super_battery: false,
            cpu_fan_curve: Some(FanCurve::silent()),
            gpu_fan_curve: Some(FanCurve::silent()),
        }
    }

    /// The settings of the `Balanced` scenario.
    pub fn balanced() -> (settings: ScenarioSettings)
        ensures
            Some(settings@) == settings_for(UserScenario::Balanced),
    {
        ScenarioSettings {
            shift_mode: ShiftMode::Comfort,
            fan_mode: FanMode::Auto,
            cooler_boost: false,
            super_battery: false,
            cpu_fan_curve: Some(FanCurve::default()),
            gpu_fan_curve: Some(FanCurve::default()),
        }
    }

    /// The settings of the `HighPerformance` scenario.
    pub fn high_performance() -> (settings: ScenarioSettings)
        ensures
            Some(settings@) == settings_for(UserScenario::HighPerformance),
    {
        ScenarioSettings {
            shift_mode: ShiftMode::Sport,
            fan_mode: FanMode::Basic,
            cooler_boost: false,
            super_battery: false,
            cpu_fan_curve: Some(FanCurve::performance()),
            gpu_fan_curve: Some(FanCurve::performance()),
        }
    }

    /// The settings of the `Turbo` scenario.
    pub fn turbo() -> (settings: ScenarioSettings)
        ensures
            Some(settings@) == settings_for(UserScenario::Turbo),
    {
        ScenarioSettings {
            shift_mode: ShiftMode::Turbo,
            fan_mode: FanMode::Advanced,
            cooler_boost: true,
            super_battery: false,
            cpu_fan_curve: Some(FanCurve::performance()),
            gpu_fan_curve: Some(FanCurve::performance()),
        }
    }

    /// The settings of the `SuperBattery` scenario.
    pub fn super_battery() -> (settings: ScenarioSettings)
        ensures
            Some(settings@) == settings_for(UserScenario::SuperBattery),
    {
        ScenarioSettings {
            shift_mode: ShiftMode::EcoSilent,
            fan_mode: FanMode::Silent,
            cooler_boost: false,
            super_battery: true,
            cpu_fan_curve: Some(FanCurve::silent()),
            gpu_fan_curve: Some(FanCurve::silent()),
        }
    }

    /// The settings of a scenario; `Custom` has none.
    pub fn for_scenario(scenario: UserScenario) -> (settings: Option<ScenarioSettings>)
        ensures
            match settings {
                Some(s) => Some(s@) == settings_for(scenario),
                None => settings_for(scenario) is None,
            },
    {
        match scenario {
            UserScenario::Silent => Some(ScenarioSettings::silent()),
            UserScenario::Balanced => Some(ScenarioSettings::balanced()),
            UserScenario::HighPerformance => Some(ScenarioSettings::high_performance()),
            UserScenario::Turbo => Some(ScenarioSettings::turbo()),
            UserScenario::SuperBattery => Some(ScenarioSettings::super_battery()),
            UserScenario::Custom => None,
        }
    }
}

/// What the controller reports of the scenario in force.
#[derive(Debug, Clone, Copy, PartialEq, Eq, Structural)]
pub struct ScenarioInfo {
    pub current_scenario: UserScenario,
    pub shift_mode: ShiftMode,
    pub super_battery: bool,
}

/// Why a scenario could not be applied.
#[derive(Debug, Clone, PartialEq, Eq)]
pub enum ScenarioError {
    /// A write of the scenario manager's own failed.
    EcError(EcError),
    /// A step of the fan controller failed.
    FanError(FanError),
    /// The named scenario does not exist.
    InvalidScenario(String),
}

impl ScenarioError {
    /// What the error says to the user.
    pub open spec fn text(self) -> Seq<char> {
        match self {
            ScenarioError::EcError(error) => "EC error: "@ + error.text(),
            ScenarioError::FanError(error) => "Fan error: "@ + error.text(),
            ScenarioError::InvalidScenario(name) => "Invalid scenario: "@ + name@,
        }
    }

    /// What the error says to the user.
    pub fn to_string(&self) -> (message: String)
        ensures
            message@ == self.text(),
    {
        match self {
            ScenarioError::EcError(error) => {
                let mut message = String::from_str("EC error: ");
                let inner = error.to_string();
                message.append(inner.as_str());
                message
            },
            ScenarioError::FanError(error) => {
                let mut message = String::from_str("Fan error: ");
                let inner = error.to_string();
                message.append(inner.as_str());
                message
            },
            ScenarioError::InvalidScenario(name) => {
                let mut message = String::from_str("Invalid scenario: ");
                message.append(name.as_str());
                message
            },
        }
    }
}

/// The bit of the super battery register that switches the mode.
pub const SUPER_BATTERY_BIT: u8 = 0x01;

/// The number of writes at the head of a settings plan that the scenario
/// manager makes itself; the steps after them are the fan controller's.
pub const MANAGER_STEPS: usize = 2;

/// The byte written to the super battery register.
pub open spec fn super_battery_byte(enabled: bool) -> u8 {
    if enabled {
        1
    } else {
        0
    }
}

/// The scenario that a shift mode and the super battery flag amount to.
/// Super battery overrides the shift mode.
pub open spec fn detect(shift_mode: ShiftMode, super_battery: bool) -> UserScenario {
    if super_battery {
        UserScenario::SuperBattery
    } else {
        match shift_mode {
            ShiftMode::EcoSilent => UserScenario::Silent,
            ShiftMode::Comfort => UserScenario::Balanced,
            ShiftMode::Sport => UserScenario::HighPerformance,
            ShiftMode::Turbo => UserScenario::Turbo,
        }
    }
}

/// What the two mode registers amount to.
pub open spec fn info_from(shift_mode_raw: u8, super_battery_raw: u8) -> ScenarioInfo {
    let shift_mode = ShiftMode::decode(shift_mode_raw);
    let super_battery = super_battery_raw & SUPER_BATTERY_BIT != 0;
    ScenarioInfo { current_scenario: detect(shift_mode, super_battery), shift_mode, super_battery }
}

/// The writes for a curve that may be absent.
pub open spec fn optional_curve_plan(base: u8, curve: Option<Seq<FanCurvePoint>>) -> Seq<EcOp> {
    match curve {
        Some(points) => curve_plan(base, points),
        None => Seq::empty(),
    }
}

/// The plan that applies settings: shift mode, super battery, fan mode,
/// cooler boost, then the CPU curve and the GPU curve where present.
pub open spec fn settings_plan(settings: SettingsView) -> Seq<EcOp> {
    seq![
        EcOp::Write { address: MSI_ADDRESS_SHIFT_MODE, value: settings.shift_mode.code() },
        EcOp::Write {
            address: MSI_ADDRESS_SUPER_BATTERY,
            value: super_battery_byte(settings.super_battery),
        },
        EcOp::Write { address: MSI_ADDRESS_FAN_MODE, value: settings.fan_mode.code() },
        EcOp::Update {
            address: MSI_ADDRESS_COOLER_BOOST,
            mask: COOLER_BOOST_BIT,
            set: settings.cooler_boost,
        },
    ] + optional_curve_plan(MSI_ADDRESS_FAN1_BASE, settings.cpu_fan_curve) + optional_curve_plan(
        MSI_ADDRESS_FAN2_BASE,
        settings.gpu_fan_curve,
    )
}

/// The plan that applies a scenario; `Custom` changes nothing.
pub open spec fn scenario_plan(scenario: UserScenario) -> Seq<EcOp> {
    match settings_for(scenario) {
        Some(settings) => settings_plan(settings),
        None => Seq::empty(),
    }
}

/// Plans scenario changes, with the fan controller's plans for the fan
/// settings, and remembers the scenario last applied.
#[derive(Debug)]
pub struct ScenarioManager<'a> {
    fan_controller: &'a FanController,
    current_scenario: UserScenario,
}

impl<'a> ScenarioManager<'a> {
    /// The scenario the manager remembers.
    pub closed spec fn remembered(&self) -> UserScenario {
        self.current_scenario
    }

    /// A manager that remembers `Balanced`.
    pub fn new(fan_controller: &'a FanController) -> (manager: ScenarioManager<'a>)
        ensures
            manager.remembered() == UserScenario::Balanced,
    {
        ScenarioManager { fan_controller, current_scenario: UserScenario::Balanced }
    }

    /// The scenario the manager remembers.
    pub fn current_scenario(&self) -> (scenario: UserScenario)
        ensures
            scenario == self.remembered(),
    {
        self.current_scenario
    }

    /// What the shift mode and super battery registers amount to, given
    /// how the reads of the two registers ended. A read that failed is
    /// reported with its error, that of the shift mode register first; no
    /// scenario is made up for a register that could not be read.
    pub fn get_current_info(
        &self,
        shift_mode_raw: Result<u8, EcError>,
        super_battery_raw: Result<u8, EcError>,
    ) -> (info: Result<ScenarioInfo, ScenarioError>)
        ensures
            info == match (shift_mode_raw, super_battery_raw) {
                (Ok(shift), Ok(battery)) => Ok(info_from(shift, battery)),
                (Err(error), _) => Err(ScenarioError::EcError(error)),
                (Ok(_), Err(error)) => Err(ScenarioError::EcError(error)),
            },
    {
        let shift_byte: u8 = match shift_mode_raw {
            Ok(byte) => byte,
            Err(error) => {
                return Err(ScenarioError::EcError(error));
            },
        };
        let battery_byte: u8 = match super_battery_raw {
            Ok(byte) => byte,
            Err(error) => {
                return Err(ScenarioError::EcError(error));
            },
        };
        let shift_mode = ShiftMode::from_byte(shift_byte);
        let super_battery = (battery_byte & SUPER_BATTERY_BIT) != 0;
        let current_scenario = Self::detect_scenario(shift_mode, super_battery);
        Ok(ScenarioInfo { current_scenario, shift_mode, super_battery })
    }

    /// The scenario that a shift mode and the super battery flag amount to.
    pub fn detect_scenario(shift_mode: ShiftMode, super_battery: bool) -> (scenario: UserScenario)
        ensures
            scenario == detect(shift_mode, super_battery),
    {
        if super_battery {
            return UserScenario::SuperBattery;
        }
        match shift_mode {
            ShiftMode::EcoSilent => UserScenario::Silent,
            ShiftMode::Comfort => UserScenario::Balanced,
            ShiftMode::Sport => UserScenario::HighPerformance,
            ShiftMode::Turbo => UserScenario::Turbo,
        }
    }

    /// The plan that applies a scenario. For `Custom` the plan is empty.
    pub fn set_scenario(&self, scenario: UserScenario) -> (plan: Vec<EcOp>)
        ensures
            plan@ == scenario_plan(scenario),
    {
        match ScenarioSettings::for_scenario(scenario) {
            Some(settings) => self.apply_settings(&settings),
            None => Vec::new(),
        }
    }

    /// Remembers `scenario`, once its plan has been carried out. `Custom`
    /// has no plan and applies nothing, so it leaves the remembered
    /// scenario as it was.
    pub fn record_scenario(&mut self, scenario: UserScenario)
        ensures
            final(self).remembered() == if scenario == UserScenario::Custom {
                old(self).remembered()
            } else {
                scenario
            },
    {
        match scenario {
            UserScenario::Custom => {},
            _ => {
                self.current_scenario = scenario;
            },
        }
    }

    /// The plan that applies settings, in the order in which the writes
    /// have to reach the controller.
    pub fn apply_settings(&self, settings: &ScenarioSettings) -> (plan: Vec<EcOp>)
        ensures
            plan@ == settings_plan(settings@),
    {
        let mut plan = self.set_shift_mode(settings.shift_mode);
        let mut battery = self.set_super_battery(settings.super_battery);
        plan.append(&mut battery);
        let mut mode = self.fan_controller.set_fan_mode(settings.fan_mode);
        plan.append(&mut mode);
        let mut boost = self.fan_controller.set_cooler_boost(settings.cooler_boost);
        plan.append(&mut boost);
        assert(plan@ =~= settings_plan(settings@).take(4));
        if let Some(curve) = &settings.cpu_fan_curve {
            let mut cpu = self.fan_controller.set_cpu_fan_curve(curve);
            plan.append(&mut cpu);
        }
        if let Some(curve) = &settings.gpu_fan_curve {
            let mut gpu = self.fan_controller.set_gpu_fan_curve(curve);
            plan.append(&mut gpu);
        }
        assert(plan@ =~= settings_plan(settings@));
        plan
    }

    /// The plan that switches the shift mode.
    pub fn set_shift_mode(&self, mode: ShiftMode) -> (plan: Vec<EcOp>)
        ensures
            plan@ == seq![EcOp::Write { address: MSI_ADDRESS_SHIFT_MODE, value: mode.code() }],
    {
        let plan = vec![EcOp::Write { address: MSI_ADDRESS_SHIFT_MODE, value: mode.to_byte() }];
        assert(plan@ =~= seq![
            EcOp::Write { address: MSI_ADDRESS_SHIFT_MODE, value: mode.code() },
        ]);
        plan
    }

    /// The plan that switches super battery.
    pub fn set_super_battery(&self, enabled: bool) -> (plan: Vec<EcOp>)
        ensures
            plan@ == seq![
                EcOp::Write {
                    address: MSI_ADDRESS_SUPER_BATTERY,
                    value: super_battery_byte(enabled),
                },
            ],
    {
        let value: u8 = if enabled {
            0x01
        } else {
            0x00
        };
        let plan = vec![EcOp::Write { address: MSI_ADDRESS_SUPER_BATTERY, value }];
        assert(plan@ =~= seq![
            EcOp::Write { address: MSI_ADDRESS_SUPER_BATTERY, value: super_battery_byte(enabled) },
        ]);
        plan
    }

    /// The scenarios a user can choose, in the order in which they are
    /// offered.
    pub fn get_available_scenarios() -> (scenarios: Vec<UserScenario>)
        ensures
            scenarios@ == seq![
                UserScenario::Silent,
                UserScenario::Balanced,
                UserScenario::HighPerformance,
                UserScenario::Turbo,
                UserScenario::SuperBattery,
            ],
    {
        let scenarios = vec![
            UserScenario::Silent,
            UserScenario::Balanced,
            UserScenario::HighPerformance,
            UserScenario::Turbo,
            UserScenario::SuperBattery,
        ];
        assert(scenarios@ =~= seq![
            UserScenario::Silent,
            UserScenario::Balanced,
            UserScenario::HighPerformance,
            UserScenario::Turbo,
            UserScenario::SuperBattery,
        ]);
        scenarios
    }

    /// The error to report when step `step` of a settings plan failed with
    /// `error`. The first two steps are the manager's own writes; the later
    /// ones belong to the fan controller. The steps before `step` have
    /// taken effect and are not undone.
    pub fn failure(step: usize, error: EcError) -> (wrapped: ScenarioError)
        ensures
            wrapped == if step < MANAGER_STEPS {
                ScenarioError::EcError(error)
            } else {
                ScenarioError::FanError(FanError::EcError(error))
            },
    {
        if step < MANAGER_STEPS {
            ScenarioError::EcError(error)
        } else {
            ScenarioError::FanError(FanError::EcError(error))
        }
    }
}

/// The transport that `probe` selects and the plan that applies
/// `scenario` through it, or the reason why there is no transport.
pub fn apply_scenario_standalone(scenario: UserScenario, probe: BackendProbe) -> (planned: Result<
    (EmbeddedController, Vec<EcOp>),
    ScenarioError,
>)
    ensures
        match select_backend(probe) {
            Ok(backend) => planned is Ok && planned->Ok_0.0.selected() == backend
                && planned->Ok_0.1@ == scenario_plan(scenario),
            Err(error) => planned == Err::<(EmbeddedController, Vec<EcOp>), ScenarioError>(
                ScenarioError::EcError(error),
            ),
        },
{
    let ec = match EmbeddedController::new(probe) {
        Ok(ec) => ec,
        Err(error) => {
            return Err(ScenarioError::EcError(error));
        },
    };
    let fan_controller = FanController::new();
    let manager = ScenarioManager::new(&fan_controller);
    let plan = manager.set_scenario(scenario);
    Ok((ec, plan))
}

} // verus!
