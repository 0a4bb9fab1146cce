use msi_center::cli::{
    check_root, create_progress_bar, get_temp_color, lacks_root, parse_bool, parse_curve_points,
    parse_fan_mode, parse_scenario, parse_shift_mode, sort_by_temp, BarLevel, ProgressBar,
    TempBand,
};
use msi_center::fan::{FanCurvePoint, FanMode};
use msi_center::scenario::{ShiftMode, UserScenario};

fn points(text: &str) -> Vec<(u8, u8)> {
    parse_curve_points(text).unwrap().points.iter().map(|p| (p.temp, p.speed)).collect()
}

fn refusal(text: &str) -> String {
    parse_curve_points(text).err().unwrap()
}

#[test]
fn fan_mode_words() {
    for (word, mode) in [
        ("auto", FanMode::Auto),
        ("0", FanMode::Auto),
        ("silent", FanMode::Silent),
        ("1", FanMode::Silent),
        ("basic", FanMode::Basic),
        ("2", FanMode::Basic),
        ("advanced", FanMode::Advanced),
        ("3", FanMode::Advanced),
        ("AUTO", FanMode::Auto),
        ("Silent", FanMode::Silent),
        ("aDvAnCeD", FanMode::Advanced),
    ] {
        assert_eq!(parse_fan_mode(word), Ok(mode), "{}", word);
    }
    assert_eq!(
        parse_fan_mode("fast"),
        Err("Invalid fan mode: fast. Use: auto, silent, basic, advanced".to_string())
    );
    assert_eq!(
        parse_fan_mode(""),
        Err("Invalid fan mode: . Use: auto, silent, basic, advanced".to_string())
    );
    assert!(parse_fan_mode(" auto").is_err());
    assert!(parse_fan_mode("4").is_err());
    assert!(parse_fan_mode("auto0").is_err());
}

#[test]
fn scenario_words() {
    for (word, scenario) in [
        ("silent", UserScenario::Silent),
        ("quiet", UserScenario::Silent),
        ("balanced", UserScenario::Balanced),
        ("comfort", UserScenario::Balanced),
        ("highperf", UserScenario::HighPerformance),
        ("performance", UserScenario::HighPerformance),
        ("sport", UserScenario::HighPerformance),
        ("turbo", UserScenario::Turbo),
        ("extreme", UserScenario::Turbo),
        ("battery", UserScenario::SuperBattery),
        ("superbattery", UserScenario::SuperBattery),
        ("eco", UserScenario::SuperBattery),
        ("TURBO", UserScenario::Turbo),
        ("HighPerf", UserScenario::HighPerformance),
    ] {
        assert_eq!(parse_scenario(word), Ok(scenario), "{}", word);
    }
    assert_eq!(
        parse_scenario("custom"),
        Err("Invalid scenario: custom. Use: silent, balanced, highperf, turbo, battery"
            .to_string())
    );
    assert_eq!(
        parse_scenario("Warp 9"),
        Err("Invalid scenario: Warp 9. Use: silent, balanced, highperf, turbo, battery"
            .to_string())
    );
}

#[test]
fn shift_mode_words() {
    for (word, mode) in [
        ("eco", ShiftMode::EcoSilent),
        ("silent", ShiftMode::EcoSilent),
        ("comfort", ShiftMode::Comfort),
        ("balanced", ShiftMode::Comfort),
        ("sport", ShiftMode::Sport),
        ("performance", ShiftMode::Sport),
        ("turbo", ShiftMode::Turbo),
        ("extreme", ShiftMode::Turbo),
        ("ECO", ShiftMode::EcoSilent),
    ] {
        assert_eq!(parse_shift_mode(word), Ok(mode), "{}", word);
    }
    assert_eq!(
        parse_shift_mode("ludicrous"),
        Err("Invalid shift mode: ludicrous. Use: eco, comfort, sport, turbo".to_string())
    );
}

#[test]
fn switch_words() {
    for word in ["on", "true", "1", "yes", "enable", "ON", "Yes", "TRUE"] {
        assert_eq!(parse_bool(word), Ok(true), "{}", word);
    }
    for word in ["off", "false", "0", "no", "disable", "OFF", "No"] {
        assert_eq!(parse_bool(word), Ok(false), "{}", word);
    }
    assert_eq!(
        parse_bool("maybe"),
        Err("Invalid value: maybe. Use: on/off, true/false, 1/0".to_string())
    );
    assert!(parse_bool("").is_err());
    assert!(parse_bool("enabled").is_err());
}

#[test]
fn words_with_letters_beyond_ascii_are_quoted_as_given() {
    assert_eq!(
        parse_bool("öN"),
        Err("Invalid value: öN. Use: on/off, true/false, 1/0".to_string())
    );
    assert_eq!(
        parse_fan_mode("ÄUTO"),
        Err("Invalid fan mode: ÄUTO. Use: auto, silent, basic, advanced".to_string())
    );
}

#[test]
fn curve_points_in_order() {
    assert_eq!(points("40:0,50:30,60:50"), vec![(40, 0), (50, 30), (60, 50)]);
    assert_eq!(points("30:10"), vec![(30, 10)]);
    assert_eq!(points("0:0,255:100"), vec![(0, 0), (255, 100)]);
    assert_eq!(points("+40:+20"), vec![(40, 20)]);
    assert_eq!(points("040:007"), vec![(40, 7)]);
}

#[test]
fn curve_points_are_sorted_by_temperature() {
    assert_eq!(points("60:50,40:0,50:30"), vec![(40, 0), (50, 30), (60, 50)]);
    assert_eq!(points("90:100,80:90,70:70,60:50,50:30,40:0").len(), 6);
    // equal temperatures keep the order in which they were given
    assert_eq!(
        points("50:1,40:9,50:2,40:8,50:3"),
        vec![(40, 9), (40, 8), (50, 1), (50, 2), (50, 3)]
    );
}

#[test]
fn curve_points_may_exceed_six() {
    assert_eq!(points("1:1,2:2,3:3,4:4,5:5,6:6,7:7,8:8").len(), 8);
}

#[test]
fn curve_point_format_errors() {
    assert_eq!(refusal(""), "Invalid curve point format: . Use temp:speed");
    assert_eq!(refusal("40"), "Invalid curve point format: 40. Use temp:speed");
    assert_eq!(refusal("40:50:60"), "Invalid curve point format: 40:50:60. Use temp:speed");
    assert_eq!(refusal("40:50,"), "Invalid curve point format: . Use temp:speed");
    assert_eq!(refusal(",40:50"), "Invalid curve point format: . Use temp:speed");
    assert_eq!(refusal("40:50,,60:70"), "Invalid curve point format: . Use temp:speed");
    assert_eq!(refusal("40:50,6070"), "Invalid curve point format: 6070. Use temp:speed");
}

#[test]
fn curve_point_number_errors() {
    assert_eq!(refusal("x:50"), "Invalid temperature: x");
    assert_eq!(refusal(":50"), "Invalid temperature: ");
    assert_eq!(refusal("256:50"), "Invalid temperature: 256");
    assert_eq!(refusal(" 40:50"), "Invalid temperature:  40");
    assert_eq!(refusal("-1:50"), "Invalid temperature: -1");
    assert_eq!(refusal("40:"), "Invalid speed: ");
    assert_eq!(refusal("40:fast"), "Invalid speed: fast");
    assert_eq!(refusal("40:300"), "Invalid speed: 300");
    assert_eq!(refusal("40:50 "), "Invalid speed: 50 ");
    assert_eq!(refusal("40:101"), "Speed must be 0-100, got: 101");
    assert_eq!(refusal("40:255"), "Speed must be 0-100, got: 255");
    assert_eq!(points("40:100"), vec![(40, 100)]);
}

#[test]
fn first_bad_pair_is_reported() {
    assert_eq!(refusal("40:101,x:5"), "Speed must be 0-100, got: 101");
    assert_eq!(refusal("x:5,40:101"), "Invalid temperature: x");
    assert_eq!(refusal("40:50,60:é"), "Invalid speed: é");
    assert_eq!(refusal("ü:1,2"), "Invalid temperature: ü");
}

#[test]
fn sorting_is_stable() {
    let given: Vec<FanCurvePoint> = [(9u8, 0u8), (3, 1), (9, 2), (3, 3), (0, 4), (9, 5)]
        .iter()
        .map(|&(temp, speed)| FanCurvePoint { temp, speed })
        .collect();
    let sorted: Vec<(u8, u8)> =
        sort_by_temp(&given).iter().map(|p| (p.temp, p.speed)).collect();
    assert_eq!(sorted, vec![(0, 4), (3, 1), (3, 3), (9, 0), (9, 2), (9, 5)]);
    let mut expected = given.clone();
    expected.sort_by_key(|p| p.temp);
    assert_eq!(sort_by_temp(&given), expected);
    assert_eq!(sort_by_temp(&Vec::new()), Vec::new());
}

#[test]
fn temperature_bands() {
    for temp in 0..=255u8 {
        let expected = match temp {
            0..=50 => TempBand::Cool,
            51..=70 => TempBand::Warm,
            71..=85 => TempBand::Hot,
            _ => TempBand::Critical,
        };
        assert_eq!(get_temp_color(temp), expected);
    }
}

#[test]
fn progress_bar_cells() {
    assert_eq!(
        create_progress_bar(0, 100, 20),
        ProgressBar { filled: 0, empty: 20, level: BarLevel::Low }
    );
    assert_eq!(
        create_progress_bar(47, 100, 20),
        ProgressBar { filled: 9, empty: 11, level: BarLevel::Low }
    );
    assert_eq!(
        create_progress_bar(50, 100, 20),
        ProgressBar { filled: 10, empty: 10, level: BarLevel::Medium }
    );
    assert_eq!(
        create_progress_bar(74, 100, 20),
        ProgressBar { filled: 14, empty: 6, level: BarLevel::Medium }
    );
    assert_eq!(
        create_progress_bar(75, 100, 20),
        ProgressBar { filled: 15, empty: 5, level: BarLevel::High }
    );
    assert_eq!(
        create_progress_bar(100, 100, 20),
        ProgressBar { filled: 20, empty: 0, level: BarLevel::High }
    );
    assert_eq!(
        create_progress_bar(200, 100, 20),
        ProgressBar { filled: 20, empty: 0, level: BarLevel::High }
    );
    assert_eq!(
        create_progress_bar(5, 0, 8),
        ProgressBar { filled: 8, empty: 0, level: BarLevel::High }
    );
    assert_eq!(
        create_progress_bar(1, 3, usize::MAX),
        ProgressBar {
            filled: usize::MAX / 3,
            empty: usize::MAX - usize::MAX / 3,
            level: BarLevel::Low
        }
    );
}

#[test]
fn progress_bar_agrees_with_single_precision() {
    for value in 0..=255u8 {
        let ratio = (value as f32 / 100.0).clamp(0.0, 1.0);
        let filled = (ratio * 20 as f32) as usize;
        let level = if ratio < 0.5 {
            BarLevel::Low
        } else if ratio < 0.75 {
            BarLevel::Medium
        } else {
            BarLevel::High
        };
        let bar = create_progress_bar(value, 100, 20);
        assert_eq!(bar, ProgressBar { filled, empty: 20 - filled, level }, "{}", value);
    }
}

#[test]
fn root_warning() {
    assert!(!lacks_root(0));
    assert!(lacks_root(1));
    assert!(lacks_root(1000));
    assert!(lacks_root(u32::MAX));
    let check = check_root();
    assert_eq!(check.warn, check.uid != 0);
    // whoever runs the tests, the answer does not change between two calls
    assert_eq!(check, check_root());
}
