use msi_center::config::{join_path, AppConfig, ConfigError, Profile, CONFIG_DIR_NAME, CONFIG_FILE_NAME};
use msi_center::fan::{FanCurve, FanCurvePoint, FanMode};
use msi_center::scenario::{ScenarioSettings, ShiftMode, UserScenario};

fn names(config: &AppConfig) -> Vec<&str> {
    config.profiles.iter().map(|p| p.name.as_str()).collect()
}

fn profile(name: &str, scenario: UserScenario) -> Profile {
    Profile { name: name.to_string(), scenario, settings: ScenarioSettings::balanced() }
}

#[test]
fn default_profile() {
    let profile = Profile::default();
    assert_eq!(profile.name, "Default");
    assert_eq!(profile.scenario, UserScenario::Balanced);
    assert_eq!(profile.settings.shift_mode, ShiftMode::Comfort);
    assert_eq!(profile.settings.fan_mode, FanMode::Auto);
    let copy = profile.clone();
    assert_eq!(copy.name, "Default");
    assert_eq!(copy.scenario, UserScenario::Balanced);
}

#[test]
fn default_config() {
    let config = AppConfig::default();
    assert_eq!(config.active_profile, "Balanced");
    assert_eq!(
        names(&config),
        vec!["Silent", "Balanced", "High Performance", "Turbo", "Super Battery"]
    );
    let scenarios: Vec<UserScenario> = config.profiles.iter().map(|p| p.scenario).collect();
    assert_eq!(
        scenarios,
        vec![
            UserScenario::Silent,
            UserScenario::Balanced,
            UserScenario::HighPerformance,
            UserScenario::Turbo,
            UserScenario::SuperBattery,
        ]
    );
    assert!(config.profiles[3].settings.cooler_boost);
    assert!(config.profiles[4].settings.super_battery);
    assert_eq!(config.profiles[0].settings.shift_mode, ShiftMode::EcoSilent);
    assert!(!config.auto_start);
    assert!(config.apply_on_boot);
    assert!(config.show_notifications);
}

#[test]
fn profile_lookup() {
    let config = AppConfig::default();
    assert_eq!(config.get_profile("Turbo").unwrap().scenario, UserScenario::Turbo);
    assert_eq!(
        config.get_profile("High Performance").unwrap().scenario,
        UserScenario::HighPerformance
    );
    assert!(config.get_profile("turbo").is_none());
    assert!(config.get_profile("").is_none());
    assert_eq!(config.get_active_profile().unwrap().name, "Balanced");
}

#[test]
fn lookup_finds_the_first_of_two_equal_names() {
    let mut config = AppConfig::default();
    config.profiles.push(profile("Silent", UserScenario::Custom));
    assert_eq!(config.get_profile("Silent").unwrap().scenario, UserScenario::Silent);
}

#[test]
fn active_profile_that_does_not_exist() {
    let mut config = AppConfig::default();
    config.active_profile = "Gone".to_string();
    assert!(config.get_active_profile().is_none());
}

#[test]
fn set_active_profile_needs_an_existing_name() {
    let mut config = AppConfig::default();
    assert!(config.set_active_profile("Turbo"));
    assert_eq!(config.active_profile, "Turbo");
    assert!(!config.set_active_profile("Warp"));
    assert_eq!(config.active_profile, "Turbo");
    assert_eq!(config.profiles.len(), 5);
}

#[test]
fn add_profile_keeps_names_unique() {
    let mut config = AppConfig::default();
    config.add_profile(profile("Mine", UserScenario::Custom));
    assert_eq!(config.profiles.len(), 6);
    assert_eq!(config.profiles[5].name, "Mine");
    config.add_profile(profile("Mine", UserScenario::Turbo));
    assert_eq!(config.profiles.len(), 6);
    assert_eq!(config.profiles[5].scenario, UserScenario::Custom);
    config.add_profile(profile("Turbo", UserScenario::Custom));
    assert_eq!(config.profiles.len(), 6);
    assert_eq!(config.get_profile("Turbo").unwrap().scenario, UserScenario::Turbo);
}

#[test]
fn remove_profile_keeps_the_order_of_the_rest() {
    let mut config = AppConfig::default();
    assert!(config.remove_profile("High Performance"));
    assert_eq!(names(&config), vec!["Silent", "Balanced", "Turbo", "Super Battery"]);
    assert_eq!(config.active_profile, "Balanced");
    assert!(!config.remove_profile("High Performance"));
    assert_eq!(config.profiles.len(), 4);
}

#[test]
fn removing_the_active_profile_activates_the_first() {
    let mut config = AppConfig::default();
    assert!(config.remove_profile("Balanced"));
    assert_eq!(config.active_profile, "Silent");
    assert!(config.remove_profile("Silent"));
    assert_eq!(config.active_profile, "High Performance");
}

#[test]
fn the_last_profile_stays() {
    let mut config = AppConfig::default();
    for name in ["Silent", "Balanced", "High Performance", "Turbo"] {
        assert!(config.remove_profile(name));
    }
    assert_eq!(names(&config), vec!["Super Battery"]);
    assert_eq!(config.active_profile, "Super Battery");
    assert!(!config.remove_profile("Super Battery"));
    assert_eq!(names(&config), vec!["Super Battery"]);
}

#[test]
fn custom_profile() {
    let mut config = AppConfig::default();
    let cpu = FanCurve { points: vec![FanCurvePoint { temp: 30, speed: 40 }] };
    config.create_custom_profile("Mine", cpu, FanCurve::silent(), ShiftMode::Sport);
    let made = config.get_profile("Mine").unwrap();
    assert_eq!(made.scenario, UserScenario::Custom);
    assert_eq!(made.settings.shift_mode, ShiftMode::Sport);
    assert_eq!(made.settings.fan_mode, FanMode::Advanced);
    assert!(!made.settings.cooler_boost);
    assert!(!made.settings.super_battery);
    assert_eq!(
        made.settings.cpu_fan_curve.as_ref().unwrap().points,
        vec![FanCurvePoint { temp: 30, speed: 40 }]
    );
    assert_eq!(
        made.settings.gpu_fan_curve.as_ref().unwrap().points,
        FanCurve::silent().points
    );
    config.create_custom_profile("Mine", FanCurve::default(), FanCurve::default(), ShiftMode::Turbo);
    assert_eq!(config.profiles.len(), 6);
    assert_eq!(config.get_profile("Mine").unwrap().settings.shift_mode, ShiftMode::Sport);
}

#[test]
fn config_paths_under_a_base() {
    assert_eq!(CONFIG_DIR_NAME, "msi-center-linux");
    assert_eq!(CONFIG_FILE_NAME, "config.json");
    assert_eq!(join_path("/a", "b"), "/a/b");
    assert_eq!(
        AppConfig::config_dir_under(Some("/home/u/.config".to_string())),
        Ok("/home/u/.config/msi-center-linux".to_string())
    );
    assert_eq!(
        AppConfig::config_file_under(Some("/home/u/.config".to_string())),
        Ok("/home/u/.config/msi-center-linux/config.json".to_string())
    );
    assert_eq!(AppConfig::config_dir_under(None), Err(ConfigError::ConfigDirNotFound));
    assert_eq!(AppConfig::config_file_under(None), Err(ConfigError::ConfigDirNotFound));
}

#[test]
fn config_paths_from_the_environment() {
    match AppConfig::config_dir() {
        Ok(dir) => {
            assert!(dir.ends_with("/msi-center-linux"));
            let file = AppConfig::config_file().unwrap();
            assert_eq!(file, format!("{}/config.json", dir));
        }
        Err(error) => {
            assert_eq!(error, ConfigError::ConfigDirNotFound);
            assert_eq!(AppConfig::config_file(), Err(ConfigError::ConfigDirNotFound));
        }
    }
}

#[test]
fn config_error_messages() {
    assert_eq!(ConfigError::ConfigDirNotFound.to_string(), "Config directory not found");
    assert_eq!(ConfigError::IoError("disk full".to_string()).to_string(), "IO error: disk full");
    assert_eq!(
        ConfigError::JsonError("expected value".to_string()).to_string(),
        "JSON error: expected value"
    );
}
