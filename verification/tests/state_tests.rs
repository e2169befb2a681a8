use air_quality_monitor::display_state;
use air_quality_monitor::system_state::{
    BatteryLevel, DisplayMode, SensorData, SystemState,
};
use ens160_aq::data::AirQualityIndex;

fn reading(co2: u16) -> SensorData {
    SensorData {
        temperature: 21_500,
        humidity: 48_000,
        co2,
        etoh: 12,
        air_quality: AirQualityIndex::Good,
    }
}

#[test]
fn system_state_starts_with_defaults() {
    let state = SystemState::new();
    assert_eq!(state.get_battery_level(), BatteryLevel::Bat100);
    assert_eq!(state.get_display_mode(), DisplayMode::RawData);
    assert!(state.get_co2_history().is_empty());
    assert!(state.last_sensor_data().is_none());
    let calibration = state.get_ens160_calibration_state();
    assert!(!calibration.is_calibrated);
    assert_eq!(calibration.calibration_start_time, None);
}

#[test]
fn system_battery_level_steps() {
    let mut state = SystemState::new();
    let cases = [
        (0u8, BatteryLevel::Bat000),
        (24, BatteryLevel::Bat000),
        (25, BatteryLevel::Bat020),
        (44, BatteryLevel::Bat020),
        (45, BatteryLevel::Bat040),
        (58, BatteryLevel::Bat040),
        (59, BatteryLevel::Bat060),
        (72, BatteryLevel::Bat060),
        (73, BatteryLevel::Bat080),
        (86, BatteryLevel::Bat080),
        (87, BatteryLevel::Bat100),
        (100, BatteryLevel::Bat100),
        (255, BatteryLevel::Bat100),
    ];
    for (percent, level) in cases {
        state.set_battery_percent(percent);
        assert_eq!(state.get_battery_level(), level);
    }
    state.set_charging(true);
    assert_eq!(state.get_battery_level(), BatteryLevel::Charging);
    state.set_charging(false);
    assert_eq!(state.get_battery_level(), BatteryLevel::Bat100);
}

#[test]
fn system_co2_history_keeps_last_ten() {
    let mut state = SystemState::new();
    for i in 0..13u16 {
        state.add_co2_measurement(400 + i);
    }
    assert_eq!(state.get_co2_history(), &[403, 404, 405, 406, 407, 408, 409, 410, 411, 412]);
}

#[test]
fn system_display_mode_toggles_back_and_forth() {
    let mut state = SystemState::new();
    state.toggle_display_mode();
    assert_eq!(state.get_display_mode(), DisplayMode::Co2History);
    state.toggle_display_mode();
    assert_eq!(state.get_display_mode(), DisplayMode::RawData);
}

#[test]
fn system_state_stores_last_reading() {
    let mut state = SystemState::new();
    state.set_last_sensor_data(reading(612));
    assert_eq!(state.last_sensor_data(), Some(reading(612)));
    assert!(state.get_co2_history().is_empty());
}

#[test]
fn ens160_calibration_state_transitions() {
    let mut state = SystemState::new();
    state.start_ens160_calibration(1234);
    let started = state.get_ens160_calibration_state();
    assert!(!started.is_calibrated);
    assert_eq!(started.calibration_start_time, Some(1234));
    state.mark_ens160_calibrated();
    let done = state.get_ens160_calibration_state();
    assert!(done.is_calibrated);
    assert_eq!(done.calibration_start_time, None);
    state.start_ens160_calibration(99);
    state.reset_ens160_calibration();
    let reset = state.get_ens160_calibration_state();
    assert!(!reset.is_calibrated);
    assert_eq!(reset.calibration_start_time, None);
}

#[test]
fn display_state_starts_with_defaults() {
    let state = display_state::DisplayState::new();
    assert_eq!(state.get_battery_level(), display_state::BatteryLevel::Bat000);
    assert_eq!(state.get_display_mode(), display_state::DisplayMode::RawData);
    assert!(state.get_co2_history().is_empty());
    assert!(state.last_sensor_data().is_none());
}

#[test]
fn display_battery_level_steps() {
    let mut state = display_state::DisplayState::new();
    let cases = [
        (0u8, display_state::BatteryLevel::Bat000),
        (25, display_state::BatteryLevel::Bat000),
        (26, display_state::BatteryLevel::Bat020),
        (45, display_state::BatteryLevel::Bat020),
        (46, display_state::BatteryLevel::Bat040),
        (65, display_state::BatteryLevel::Bat040),
        (66, display_state::BatteryLevel::Bat060),
        (80, display_state::BatteryLevel::Bat060),
        (81, display_state::BatteryLevel::Bat080),
        (90, display_state::BatteryLevel::Bat080),
        (91, display_state::BatteryLevel::Bat100),
        (255, display_state::BatteryLevel::Bat100),
    ];
    for (percent, level) in cases {
        state.set_battery_percent(percent);
        assert_eq!(state.get_battery_level(), level);
    }
    state.set_charging(true);
    assert_eq!(state.get_battery_level(), display_state::BatteryLevel::Charging);
}

#[test]
fn display_state_history_mode_and_reading() {
    let mut state = display_state::DisplayState::new();
    for i in 0..11u16 {
        state.add_co2_measurement(i);
    }
    assert_eq!(state.get_co2_history(), &[1, 2, 3, 4, 5, 6, 7, 8, 9, 10]);
    state.toggle_display_mode();
    assert_eq!(state.get_display_mode(), display_state::DisplayMode::Co2History);
    state.toggle_display_mode();
    assert_eq!(state.get_display_mode(), display_state::DisplayMode::RawData);
    let data = display_state::SensorData {
        temperature: 1,
        humidity: 2,
        co2: 3,
        etoh: 4,
        air_quality: AirQualityIndex::Poor,
    };
    state.set_last_sensor_data(data);
    assert_eq!(state.last_sensor_data(), Some(data));
}
