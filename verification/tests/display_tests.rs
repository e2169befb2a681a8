use air_quality_monitor::display::{
    battery_icon_index, co2_chart, plan_redraw, Bar, ClearArea, Co2Chart, DisplayCommand,
    MainContent, RedrawPlan,
};
use air_quality_monitor::system_state::{BatteryLevel, DisplayMode};
use ens160_aq::data::AirQualityIndex;

fn sensor_command() -> DisplayCommand {
    DisplayCommand::SensorData {
        temperature: 21_500,
        humidity: 48_000,
        co2: 700,
        etoh: 20,
        air_quality: AirQualityIndex::Good,
    }
}

#[test]
fn sensor_data_redraws_main_area_in_current_mode() {
    assert_eq!(
        plan_redraw(&sensor_command(), DisplayMode::RawData, true),
        RedrawPlan { clear: ClearArea::Main, content: MainContent::SensorValues }
    );
    assert_eq!(
        plan_redraw(&sensor_command(), DisplayMode::Co2History, true),
        RedrawPlan { clear: ClearArea::Main, content: MainContent::Co2Chart }
    );
}

#[test]
fn battery_commands_touch_battery_icon_only() {
    for command in [DisplayCommand::BatteryCharging, DisplayCommand::UpdateBatteryPercentage(40)] {
        for mode in [DisplayMode::RawData, DisplayMode::Co2History] {
            assert_eq!(
                plan_redraw(&command, mode, true),
                RedrawPlan { clear: ClearArea::Battery, content: MainContent::Unchanged }
            );
        }
    }
}

#[test]
fn toggle_without_reading_shows_startup_message() {
    assert_eq!(
        plan_redraw(&DisplayCommand::ToggleMode, DisplayMode::Co2History, false),
        RedrawPlan { clear: ClearArea::Main, content: MainContent::Initializing }
    );
    assert_eq!(
        plan_redraw(&DisplayCommand::ToggleMode, DisplayMode::Co2History, true),
        RedrawPlan { clear: ClearArea::Main, content: MainContent::Co2Chart }
    );
    assert_eq!(
        plan_redraw(&DisplayCommand::ToggleMode, DisplayMode::RawData, true),
        RedrawPlan { clear: ClearArea::Main, content: MainContent::SensorValues }
    );
}

#[test]
fn battery_levels_map_to_icons() {
    assert_eq!(battery_icon_index(BatteryLevel::Charging), None);
    assert_eq!(battery_icon_index(BatteryLevel::Bat000), Some(0));
    assert_eq!(battery_icon_index(BatteryLevel::Bat020), Some(1));
    assert_eq!(battery_icon_index(BatteryLevel::Bat040), Some(2));
    assert_eq!(battery_icon_index(BatteryLevel::Bat060), Some(3));
    assert_eq!(battery_icon_index(BatteryLevel::Bat080), Some(4));
    assert_eq!(battery_icon_index(BatteryLevel::Bat100), Some(5));
}

#[test]
fn empty_history_has_no_chart() {
    assert_eq!(co2_chart(&[]), None);
}

#[test]
fn chart_scales_bars_between_minimum_and_maximum() {
    let chart = co2_chart(&[400, 800, 600]).unwrap();
    assert_eq!(
        chart,
        Co2Chart {
            min_co2: 400,
            max_co2: 800,
            bars: vec![
                Bar { x: 0, y: 56, width: 41, height: 0 },
                Bar { x: 42, y: 17, width: 41, height: 39 },
                Bar { x: 84, y: 37, width: 41, height: 19 },
            ],
        }
    );
}

#[test]
fn chart_of_constant_history_is_flat() {
    let chart = co2_chart(&[500; 10]).unwrap();
    assert_eq!(chart.min_co2, 500);
    assert_eq!(chart.max_co2, 500);
    assert_eq!(chart.bars.len(), 10);
    for (i, bar) in chart.bars.iter().enumerate() {
        assert_eq!(*bar, Bar { x: 12 * i as i32, y: 56, width: 11, height: 0 });
    }
}

#[test]
fn chart_handles_full_range_and_single_value() {
    let chart = co2_chart(&[0, u16::MAX]).unwrap();
    assert_eq!(chart.bars[0], Bar { x: 0, y: 56, width: 63, height: 0 });
    assert_eq!(chart.bars[1], Bar { x: 64, y: 17, width: 63, height: 39 });
    let single = co2_chart(&[1234]).unwrap();
    assert_eq!(single.bars, vec![Bar { x: 0, y: 56, width: 127, height: 0 }]);
}

#[test]
fn chart_with_more_values_than_pixels_collapses_bars() {
    let history: Vec<u16> = (0..200u16).collect();
    let chart = co2_chart(&history).unwrap();
    assert_eq!(chart.bars.len(), 200);
    assert_eq!(chart.bars[199], Bar { x: 0, y: 17, width: 0, height: 39 });
    assert_eq!(chart.bars[0], Bar { x: 0, y: 56, width: 0, height: 0 });
}
