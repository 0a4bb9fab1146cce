//! Named profiles and the settings of the application that are kept
//! between runs.

use crate::fan::{FanCurve, FanMode};
use crate::scenario::{
    settings_for, ScenarioSettings, SettingsView, ShiftMode, UserScenario,
};
use vstd::prelude::*;
use vstd::string::StringExecFns;

verus! {

/// Why the configuration could not be found, read or written.
#[derive(Debug, Clone, PartialEq, Eq)]
pub enum ConfigError {
    /// Reading or writing the file failed; the text says why.
    IoError(String),
    /// The file does not hold a configuration; the text says why.
    JsonError(String),
    /// The user has no configuration directory.
    ConfigDirNotFound,
}

impl ConfigError {
    /// What the error says to the user.
    pub open spec fn text(self) -> Seq<char> {
        match self {
            ConfigError::IoError(reason) => "IO error: "@ + reason@,
            ConfigError::JsonError(reason) => "JSON error: "@ + reason@,
            ConfigError::ConfigDirNotFound => "Config directory not found"@,
        }
    }

    /// What the error says to the user.
    pub fn to_string(&self) -> (message: String)
        ensures
            message@ == self.text(),
    {
        match self {
            ConfigError::IoError(reason) => {
                let mut message = String::from_str("IO error: ");
                message.append(reason.as_str());
                message
            },
            ConfigError::JsonError(reason) => {
                let mut message = String::from_str("JSON error: ");
                message.append(reason.as_str());
                message
            },
            ConfigError::ConfigDirNotFound => String::from_str("Config directory not found"),
        }
    }
}

/// Settings under a name.
#[derive(Debug)]
pub struct Profile {
    pub name: String,
    pub scenario: UserScenario,
    pub settings: ScenarioSettings,
}

/// A profile as plain values.
pub struct ProfileView {
    pub name: Seq<char>,
    pub scenario: UserScenario,
    pub settings: SettingsView,
}

impl View for Profile {
    type V = ProfileView;

    open spec fn view(&self) -> ProfileView {
        ProfileView { name: self.name@, scenario: self.scenario, settings: self.settings@ }
    }
}

impl Clone for Profile {
    fn clone(&self) -> (copy: Profile)
        ensures
            copy@ == self@,
    {
        Profile {
            name: self.name.clone(),
            scenario: self.scenario,
            settings: self.settings.clone(),
        }
    }
}

impl Default for Profile {
    /// The balanced scenario under the name `Default`.
    fn default() -> (profile: Profile)
        ensures
            profile@.name == "Default"@,
            profile@.scenario == UserScenario::Balanced,
            Some(profile@.settings) == settings_for(UserScenario::Balanced),
    {
        Profile {
            name: String::from_str("Default"),
            scenario: UserScenario::Balanced,
            settings: ScenarioSettings::balanced(),
        }
    }
}

/// What the application keeps between runs.
#[derive(Debug)]
pub struct AppConfig {
    pub active_profile: String,
    pub profiles: Vec<Profile>,
    pub auto_start: bool,
    pub apply_on_boot: bool,
    pub show_notifications: bool,
}

/// A configuration as plain values.
pub struct AppConfigView {
    pub active_profile: Seq<char>,
    pub profiles: Seq<ProfileView>,
    pub auto_start: bool,
    pub apply_on_boot: bool,
    pub show_notifications: bool,
}

impl View for AppConfig {
    type V = AppConfigView;

    open spec fn view(&self) -> AppConfigView {
        AppConfigView {
            active_profile: self.active_profile@,
            profiles: Seq::new(self.profiles@.len(), |i: int| self.profiles@[i]@),
            auto_start: self.auto_start,
            apply_on_boot: self.apply_on_boot,
            show_notifications: self.show_notifications,
        }
    }
}

/// The name under which a scenario's profile is kept.
pub open spec fn profile_name(scenario: UserScenario) -> Seq<char> {
    match scenario {
        UserScenario::Silent => "Silent"@,
        UserScenario::Balanced => "Balanced"@,
        UserScenario::HighPerformance => "High Performance"@,
        UserScenario::Turbo => "Turbo"@,
        UserScenario::SuperBattery => "Super Battery"@,
        UserScenario::Custom => "Custom"@,
    }
}

/// The profile that a scenario is kept as.
pub open spec fn scenario_profile(scenario: UserScenario) -> ProfileView
    recommends
        scenario != UserScenario::Custom,
{
    ProfileView {
        name: profile_name(scenario),
        scenario,
        settings: settings_for(scenario)->Some_0,
    }
}

/// The configuration of a first run: one profile per scenario, `Balanced`
/// active, applied on boot, with notifications.
pub open spec fn default_config() -> AppConfigView {
    AppConfigView {
        active_profile: "Balanced"@,
        profiles: seq![
            scenario_profile(UserScenario::Silent),
            scenario_profile(UserScenario::Balanced),
            scenario_profile(UserScenario::HighPerformance),
            scenario_profile(UserScenario::Turbo),
            scenario_profile(UserScenario::SuperBattery),
        ],
        auto_start: false,
        apply_on_boot: true,
        show_notifications: true,
    }
}

/// The index of the first profile at or after `from` that bears `name`;
/// the number of profiles where none does.
pub open spec fn find_profile(profiles: Seq<ProfileView>, name: Seq<char>, from: int) -> int
    decreases profiles.len() - from,
{
    if from < 0 || from >= profiles.len() {
        profiles.len() as int
    } else if profiles[from].name == name {
        from
    } else {
        find_profile(profiles, name, from + 1)
    }
}

/// Whether a profile bears `name`.
pub open spec fn has_profile(profiles: Seq<ProfileView>, name: Seq<char>) -> bool {
    find_profile(profiles, name, 0) < profiles.len()
}

/// The configuration with `name` active, if a profile bears that name;
/// else the configuration as it is.
pub open spec fn with_active(config: AppConfigView, name: Seq<char>) -> AppConfigView {
    if has_profile(config.profiles, name) {
        AppConfigView { active_profile: name, ..config }
    } else {
        config
    }
}

/// The configuration with `profile` added at the end, unless a profile
/// bears its name already.
pub open spec fn with_profile(config: AppConfigView, profile: ProfileView) -> AppConfigView {
    if has_profile(config.profiles, profile.name) {
        config
    } else {
        AppConfigView { profiles: config.profiles.push(profile), ..config }
    }
}

/// Whether the profile named `name` can be removed: it exists and is not
/// the only one.
pub open spec fn removable(config: AppConfigView, name: Seq<char>) -> bool {
    has_profile(config.profiles, name) && config.profiles.len() > 1
}

/// The configuration without the first profile named `name`, where that
/// can be removed. If it was the active one, the first of the remaining
/// profiles becomes active.
pub open spec fn without_profile(config: AppConfigView, name: Seq<char>) -> AppConfigView {
    if removable(config, name) {
        let rest = config.profiles.remove(find_profile(config.profiles, name, 0));
        AppConfigView {
            profiles: rest,
            active_profile: if config.active_profile == name {
                rest[0].name
            } else {
                config.active_profile
            },
            ..config
        }
    } else {
        config
    }
}

/// The profile that holds a user's own curves: advanced fan mode, cooler
/// boost and super battery off.
pub open spec fn custom_profile(
    name: Seq<char>,
    cpu_curve: FanCurve,
    gpu_curve: FanCurve,
    shift_mode: ShiftMode,
) -> ProfileView {
    ProfileView {
        name,
        scenario: UserScenario::Custom,
        settings: SettingsView {
            shift_mode,
            fan_mode: FanMode::Advanced,
            cooler_boost: false,
            super_battery: false,
            cpu_fan_curve: Some(cpu_curve@),
            gpu_fan_curve: Some(gpu_curve@),
        },
    }
}

/// The name of the application's directory under the user's configuration
/// directory.
pub const CONFIG_DIR_NAME: &'static str = "msi-center-linux";

/// The name of the configuration file.
pub const CONFIG_FILE_NAME: &'static str = "config.json";

/// The path of `name` inside the directory `base`.
pub open spec fn joined(base: Seq<char>, name: Seq<char>) -> Seq<char> {
    base + "/"@ + name
}

/// The path of `name` inside the directory `base`.
pub fn join_path(base: &str, name: &str) -> (path: String)
    ensures
        path@ == joined(base@, name@),
{
    let mut path = String::from_str(base);
    path.append("/");
    path.append(name);
    path
}

/// The user's configuration directory, as `dirs::config_dir` reports it:
/// on Linux `$XDG_CONFIG_HOME`, or `.config` under the home directory.
/// Nothing is claimed of the result, which depends on the environment.
#[verifier::external_body]
fn user_config_dir() -> (dir: Option<String>) {
    match dirs::config_dir() {
        Some(path) => Some(path.to_string_lossy().into_owned()),
        None => None,
    }
}

impl Default for AppConfig {
    /// The configuration of a first run.
    fn default() -> (config: AppConfig)
        ensures
            config@ == default_config(),
    {
        let mut profiles: Vec<Profile> = Vec::new();
        profiles.push(
            Profile {
                name: String::from_str("Silent"),
                scenario: UserScenario::Silent,
                settings: ScenarioSettings::silent(),
            },
        );
        profiles.push(
            Profile {
                name: String::from_str("Balanced"),
                scenario: UserScenario::Balanced,
                settings: ScenarioSettings::balanced(),
            },
        );
        profiles.push(
            Profile {
                name: String::from_str("High Performance"),
                scenario: UserScenario::HighPerformance,
                settings: ScenarioSettings::high_performance(),
            },
        );
        profiles.push(
            Profile {
                name: String::from_str("Turbo"),
                scenario: UserScenario::Turbo,
                settings: ScenarioSettings::turbo(),
            },
        );
        profiles.push(
            Profile {
                name: String::from_str("Super Battery"),
                scenario: UserScenario::SuperBattery,
                settings: ScenarioSettings::super_battery(),
            },
        );
        let config = AppConfig {
            active_profile: String::from_str("Balanced"),
            profiles,
            auto_start: false,
            apply_on_boot: true,
            show_notifications: true,
        };
        assert(config@.profiles =~= default_config().profiles);
        config
    }
}

impl AppConfig {
    /// The application's directory under `base`, the user's configuration
    /// directory; `ConfigDirNotFound` where the user has none.
    pub fn config_dir_under(base: Option<String>) -> (dir: Result<String, ConfigError>)
        ensures
            match base {
                Some(b) => dir is Ok && dir->Ok_0@ == joined(b@, CONFIG_DIR_NAME@),
                None => dir == Err::<String, ConfigError>(ConfigError::ConfigDirNotFound),
            },
    {
        match base {
            Some(b) => Ok(join_path(b.as_str(), CONFIG_DIR_NAME)),
            None => Err(ConfigError::ConfigDirNotFound),
        }
    }

    /// The configuration file under `base`, the user's configuration
    /// directory; `ConfigDirNotFound` where the user has none.
    pub fn config_file_under(base: Option<String>) -> (file: Result<String, ConfigError>)
        ensures
            match base {
                Some(b) => file is Ok && file->Ok_0@ == joined(
                    joined(b@, CONFIG_DIR_NAME@),
                    CONFIG_FILE_NAME@,
                ),
                None => file == Err::<String, ConfigError>(ConfigError::ConfigDirNotFound),
            },
    {
        match Self::config_dir_under(base) {
            Ok(dir) => Ok(join_path(dir.as_str(), CONFIG_FILE_NAME)),
            Err(error) => Err(error),
        }
    }

    /// The application's directory under the user's configuration
    /// directory. The only error is `ConfigDirNotFound`.
    pub fn config_dir() -> (dir: Result<String, ConfigError>)
        ensures
            match dir {
                Ok(path) => exists|base: Seq<char>| path@ == joined(base, CONFIG_DIR_NAME@),
                Err(error) => error == ConfigError::ConfigDirNotFound,
            },
    {
        let base = user_config_dir();
        let ghost found = base;
        let dir = Self::config_dir_under(base);
        proof {
            if let Some(b) = found {
                assert(dir->Ok_0@ == joined(b@, CONFIG_DIR_NAME@));
            }
        }
        dir
    }

    /// The configuration file in the application's directory. The only
    /// error is `ConfigDirNotFound`.
    pub fn config_file() -> (file: Result<String, ConfigError>)
        ensures
            match file {
                Ok(path) => exists|base: Seq<char>|
                    path@ == joined(joined(base, CONFIG_DIR_NAME@), CONFIG_FILE_NAME@),
                Err(error) => error == ConfigError::ConfigDirNotFound,
            },
    {
        let base = user_config_dir();
        let ghost found = base;
        let file = Self::config_file_under(base);
        proof {
            if let Some(b) = found {
                assert(file->Ok_0@ == joined(joined(b@, CONFIG_DIR_NAME@), CONFIG_FILE_NAME@));
            }
        }
        file
    }

    /// The index of the first profile named `name`, or the number of
    /// profiles where there is none.
    fn position(&self, name: &str) -> (index: usize)
        ensures
            index == find_profile(self@.profiles, name@, 0),
            index <= self.profiles@.len(),
    {
        let wanted = name.to_owned();
        let mut i: usize = 0;
        while i < self.profiles.len()
            invariant
                i <= self.profiles@.len(),
                wanted@ == name@,
                find_profile(self@.profiles, name@, 0) == find_profile(
                    self@.profiles,
                    name@,
                    i as int,
                ),
            decreases self.profiles@.len() - i,
        {
            if self.profiles[i].name == wanted {
                return i;
            }
            i += 1;
        }
        i
    }

    /// The first profile named `name`.
    pub fn get_profile(&self, name: &str) -> (profile: Option<&Profile>)
        ensures
            match profile {
                Some(p) => has_profile(self@.profiles, name@) && p@
                    == self@.profiles[find_profile(self@.profiles, name@, 0)],
                None => !has_profile(self@.profiles, name@),
            },
    {
        let index = self.position(name);
        if index < self.profiles.len() {
            Some(&self.profiles[index])
        } else {
            None
        }
    }

    /// The profile that is active, if a profile bears the active name.
    pub fn get_active_profile(&self) -> (profile: Option<&Profile>)
        ensures
            match profile {
                Some(p) => has_profile(self@.profiles, self@.active_profile) && p@
                    == self@.profiles[find_profile(self@.profiles, self@.active_profile, 0)],
                None => !has_profile(self@.profiles, self@.active_profile),
            },
    {
        self.get_profile(self.active_profile.as_str())
    }

    /// Makes the profile named `name` the active one. Returns whether such
    /// a profile exists; where none does, nothing changes.
    pub fn set_active_profile(&mut self, name: &str) -> (found: bool)
        ensures
            found == has_profile(old(self)@.profiles, name@),
            final(self)@ == with_active(old(self)@, name@),
    {
        let index = self.position(name);
        if index < self.profiles.len() {
            self.active_profile = name.to_owned();
            true
        } else {
            false
        }
    }

    /// Adds a profile, unless one bears its name already.
    pub fn add_profile(&mut self, profile: Profile)
        ensures
            final(self)@ == with_profile(old(self)@, profile@),
    {
        let index = self.position(profile.name.as_str());
        if index >= self.profiles.len() {
            self.profiles.push(profile);
            assert(self@.profiles =~= old(self)@.profiles.push(profile@));
        }
    }

    /// Removes the first profile named `name`, unless it is the only
    /// profile. Returns whether a profile was removed; where none was,
    /// nothing changes.
    pub fn remove_profile(&mut self, name: &str) -> (removed: bool)
        ensures
            removed == removable(old(self)@, name@),
            final(self)@ == without_profile(old(self)@, name@),
    {
        let index = self.position(name);
        if index < self.profiles.len() && self.profiles.len() > 1 {
            self.profiles.remove(index);
            assert(self@.profiles =~= old(self)@.profiles.remove(index as int));
            let wanted = name.to_owned();
            if self.active_profile == wanted {
                self.active_profile = self.profiles[0].name.clone();
            }
            true
        } else {
            false
        }
    }

    /// Adds a profile for a user's own curves, under `name`, unless a
    /// profile bears that name already.
    pub fn create_custom_profile(
        &mut self,
        name: &str,
        cpu_curve: FanCurve,
        gpu_curve: FanCurve,
        shift_mode: ShiftMode,
    )
        ensures
            final(self)@ == with_profile(
                old(self)@,
                custom_profile(name@, cpu_curve, gpu_curve, shift_mode),
            ),
    {
        let settings = ScenarioSettings {
            shift_mode,
            fan_mode: FanMode::Advanced,
            cooler_boost: false,
            super_battery: false,
            cpu_fan_curve: Some(cpu_curve),
            gpu_fan_curve: Some(gpu_curve),
        };
        let profile = Profile { name: name.to_owned(), scenario: UserScenario::Custom, settings };
        self.add_profile(profile);
    }
}

} // verus!
