use air_quality_monitor::event::Event;
use air_quality_monitor::vsys::{
    adc_value_to_voltage, read_voltage, voltage_to_percentage, AdcReading, PowerMonitor,
    VoltageError,
};
use air_quality_monitor::watchdog::{SystemHealth, TaskId};

#[test]
fn adc_counts_convert_to_millivolts() {
    assert_eq!(adc_value_to_voltage(0), 270);
    assert_eq!(adc_value_to_voltage(1), 272);
    assert_eq!(adc_value_to_voltage(2000), 5103);
    assert_eq!(adc_value_to_voltage(4095), 10_167);
    assert_eq!(adc_value_to_voltage(4096), 10_170);
    assert_eq!(adc_value_to_voltage(u16::MAX), 158_667);
}

#[test]
fn voltage_converts_to_percentage() {
    assert_eq!(voltage_to_percentage(0), 0);
    assert_eq!(voltage_to_percentage(3000), 0);
    assert_eq!(voltage_to_percentage(3001), 0);
    assert_eq!(voltage_to_percentage(3011), 1);
    assert_eq!(voltage_to_percentage(3550), 50);
    assert_eq!(voltage_to_percentage(4099), 99);
    assert_eq!(voltage_to_percentage(4100), 100);
    assert_eq!(voltage_to_percentage(5000), 100);
    assert_eq!(voltage_to_percentage(u32::MAX), 100);
}

#[test]
fn conversion_outcomes_are_interpreted() {
    assert_eq!(read_voltage(AdcReading::Value(2000)), Ok(5103));
    assert_eq!(read_voltage(AdcReading::Value(0)), Err(VoltageError::ConversionFailed));
    assert_eq!(read_voltage(AdcReading::ConversionFailed), Err(VoltageError::ConversionFailed));
    assert_eq!(read_voltage(AdcReading::TimedOut), Err(VoltageError::ConversionFailed));
}

#[test]
fn first_measurement_is_always_announced() {
    let mut charging = PowerMonitor::new();
    assert_eq!(charging.process_voltage(4_900), Some(Event::BatteryCharging));
    let mut on_battery = PowerMonitor::new();
    assert_eq!(on_battery.process_voltage(3_550), Some(Event::BatteryLevel(50)));
}

#[test]
fn events_are_sent_on_changes_only() {
    let mut monitor = PowerMonitor::new();
    assert_eq!(monitor.process_voltage(4_900), Some(Event::BatteryCharging));
    assert_eq!(monitor.process_voltage(4_950), None);
    assert_eq!(monitor.process_voltage(4_401), None);
    // On battery: the median of [3550] is 3550.
    assert_eq!(monitor.process_voltage(3_550), Some(Event::BatteryLevel(50)));
    // Median of [3550, 3550].
    assert_eq!(monitor.process_voltage(3_550), None);
    // Median of [3550, 3550, 3000] is still 3550: a single outlier is ignored.
    assert_eq!(monitor.process_voltage(3_000), None);
    // Median of [3550, 3550, 3000, 3000] is 3275: 25 percent.
    assert_eq!(monitor.process_voltage(3_000), Some(Event::BatteryLevel(25)));
    // Median of [3550, 3550, 3000, 3000, 3000] is 3000.
    assert_eq!(monitor.process_voltage(3_000), Some(Event::BatteryLevel(0)));
    assert_eq!(monitor.process_voltage(3_000), None);
    assert_eq!(monitor.process_voltage(4_500), Some(Event::BatteryCharging));
    // Back on battery with an unchanged percentage: the state change is announced.
    assert_eq!(monitor.process_voltage(3_000), Some(Event::BatteryLevel(0)));
}

#[test]
fn threshold_voltage_counts_as_battery_power() {
    let mut monitor = PowerMonitor::new();
    assert_eq!(monitor.process_voltage(4_400), Some(Event::BatteryLevel(100)));
}

#[test]
fn readings_report_task_health() {
    let mut monitor = PowerMonitor::new();
    let mut health = SystemHealth::new();
    for task in [TaskId::Sensor, TaskId::Display, TaskId::Orchestrator, TaskId::ModeSwitch] {
        health.set_task_succeeded(task);
    }
    assert_eq!(monitor.process_reading(&mut health, AdcReading::TimedOut), None);
    assert!(!health.check_at(0));
    assert!(!health.all_healthy());
    // 1400 counts are 3383 + 270 = 3653 mV: 59 percent.
    assert_eq!(
        monitor.process_reading(&mut health, AdcReading::Value(1400)),
        Some(Event::BatteryLevel(59))
    );
    assert!(!health.check_at(1));
    assert!(health.all_healthy());
    assert_eq!(monitor.process_reading(&mut health, AdcReading::Value(0)), None);
    assert!(!health.check_at(2));
    assert!(!health.all_healthy());
}
