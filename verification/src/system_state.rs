//! The system-wide derived state: last sensor reading, CO2 history, display
//! mode and battery state. Only the orchestrator changes it.

use vstd::prelude::*;
use ens160_aq::data::AirQualityIndex;
use crate::buffers::{push_evicting, Co2Buffer, CO2_BUFFER_CAPACITY};

verus! {

/// The two views the display alternates between.
#[derive(Debug, Eq, PartialEq, Copy, Clone, Structural)]
pub enum DisplayMode {
    /// Current sensor values.
    RawData,
    /// Bar chart of the CO2 history.
    Co2History,
}

impl DisplayMode {
    /// The other view.
    pub open spec fn toggled(self) -> DisplayMode {
        match self {
            DisplayMode::RawData => DisplayMode::Co2History,
            DisplayMode::Co2History => DisplayMode::RawData,
        }
    }
}

/// Calibration state of the air-quality sensor.
#[derive(Debug, Clone, Copy)]
pub struct Ens160CalibrationState {
    /// Whether the sensor has completed its initial calibration.
    pub is_calibrated: bool,
    /// Start of continuous operation, in seconds since boot.
    pub calibration_start_time: Option<u64>,
}

/// A sensor reading as the display shows it.
#[derive(Clone, Copy, Debug, PartialEq)]
pub struct SensorData {
    /// Temperature in thousandths of a degree Celsius.
    pub temperature: i32,
    /// Humidity in thousandths of %RH.
    pub humidity: i32,
    /// Equivalent CO2 in ppm.
    pub co2: u16,
    /// Ethanol in ppb.
    pub etoh: u16,
    /// Air quality index.
    pub air_quality: AirQualityIndex,
}

/// Charge level of the battery, as the display shows it.
#[derive(PartialEq, Debug, Clone, Copy, Eq, Structural)]
pub enum BatteryLevel {
    /// The battery is charging.
    Charging,
    /// Roughly a sixth of the run time is left.
    Bat000,
    /// Roughly a third of the run time is left.
    Bat020,
    /// Roughly half of the run time is left.
    Bat040,
    /// Roughly two thirds of the run time are left.
    Bat060,
    /// Roughly five sixths of the run time are left.
    Bat080,
    /// Almost full.
    Bat100,
}

/// The battery level shown for a charging state and a percentage. The steps
/// are uneven because the battery's voltage drops much faster near the end.
pub open spec fn battery_level_of(is_charging: bool, percent: u8) -> BatteryLevel {
    if is_charging {
        BatteryLevel::Charging
    } else if percent <= 24 {
        BatteryLevel::Bat000
    } else if percent <= 44 {
        BatteryLevel::Bat020
    } else if percent <= 58 {
        BatteryLevel::Bat040
    } else if percent <= 72 {
        BatteryLevel::Bat060
    } else if percent <= 86 {
        BatteryLevel::Bat080
    } else {
        BatteryLevel::Bat100
    }
}

/// The mathematical content of a [`SystemState`].
pub struct SystemStateView {
    /// Battery level in percent.
    pub battery_percent: u8,
    /// Whether the battery is charging.
    pub is_charging: bool,
    /// The last sensor reading, if any has arrived.
    pub last_sensor_data: Option<SensorData>,
    /// The last CO2 readings, oldest first; at most ten.
    pub co2_history: Seq<u16>,
    /// The view the display is in.
    pub display_mode: DisplayMode,
    /// Calibration state of the air-quality sensor.
    pub ens160_calibration_state: Ens160CalibrationState,
}

impl SystemStateView {
    /// The state at start-up.
    pub open spec fn initial() -> Self {
        SystemStateView {
            battery_percent: 100,
            is_charging: false,
            last_sensor_data: None,
            co2_history: Seq::empty(),
            display_mode: DisplayMode::RawData,
            ens160_calibration_state: Ens160CalibrationState {
                is_calibrated: false,
                calibration_start_time: None,
            },
        }
    }

    /// The battery level shown in this state.
    pub open spec fn battery_level(self) -> BatteryLevel {
        battery_level_of(self.is_charging, self.battery_percent)
    }
}

/// The current state of the system.
pub struct SystemState {
    battery_percent: u8,
    is_charging: bool,
    last_sensor_data: Option<SensorData>,
    co2_history: Co2Buffer,
    display_mode: DisplayMode,
    ens160_calibration_state: Ens160CalibrationState,
}

impl SystemState {
    /// The mathematical content of this state.
    pub closed spec fn view(&self) -> SystemStateView {
        SystemStateView {
            battery_percent: self.battery_percent,
            is_charging: self.is_charging,
            last_sensor_data: self.last_sensor_data,
            co2_history: self.co2_history@,
            display_mode: self.display_mode,
            ens160_calibration_state: self.ens160_calibration_state,
        }
    }

    /// The state at start-up: a full battery that is not charging, no sensor
    /// reading, an empty history, the raw-data view, an uncalibrated sensor.
    pub fn new() -> (state: Self)
        ensures
            state@ == SystemStateView::initial(),
    {
        SystemState {
            battery_percent: 100,
            is_charging: false,
            last_sensor_data: None,
            co2_history: Co2Buffer::new(),
            display_mode: DisplayMode::RawData,
            ens160_calibration_state: Ens160CalibrationState {
                is_calibrated: false,
                calibration_start_time: None,
            },
        }
    }

    /// Stores `data` as the last sensor reading.
    pub fn set_last_sensor_data(&mut self, data: SensorData)
        ensures
            final(self)@ == (SystemStateView { last_sensor_data: Some(data), ..old(self)@ }),
    {
        self.last_sensor_data = Some(data);
    }

    /// The last sensor reading, if any has arrived.
    pub fn last_sensor_data(&self) -> (data: Option<SensorData>)
        ensures
            data == self@.last_sensor_data,
    {
        self.last_sensor_data
    }

    /// Stores the battery percentage.
    pub fn set_battery_percent(&mut self, percent: u8)
        ensures
            final(self)@ == (SystemStateView { battery_percent: percent, ..old(self)@ }),
    {
        self.battery_percent = percent;
    }

    /// Stores the charging state.
    pub fn set_charging(&mut self, is_charging: bool)
        ensures
            final(self)@ == (SystemStateView { is_charging: is_charging, ..old(self)@ }),
    {
        self.is_charging = is_charging;
    }

    /// Appends a CO2 reading to the history; the oldest one leaves once ten
    /// are held.
    pub fn add_co2_measurement(&mut self, co2: u16)
        ensures
            final(self)@ == (SystemStateView {
                co2_history: push_evicting(old(self)@.co2_history, CO2_BUFFER_CAPACITY as int, co2),
                ..old(self)@
            }),
            final(self)@.co2_history.len() <= CO2_BUFFER_CAPACITY,
    {
        self.co2_history.push_evicting(co2);
    }

    /// Switches to the other display view.
    pub fn toggle_display_mode(&mut self)
        ensures
            final(self)@ == (SystemStateView {
                display_mode: old(self)@.display_mode.toggled(),
                ..old(self)@
            }),
    {
        self.display_mode =
        match self.display_mode {
            DisplayMode::RawData => DisplayMode::Co2History,
            DisplayMode::Co2History => DisplayMode::RawData,
        };
    }

    /// The view the display is in.
    pub fn get_display_mode(&self) -> (mode: DisplayMode)
        ensures
            mode == self@.display_mode,
    {
        self.display_mode
    }

    /// The CO2 history, oldest first: at most the last ten readings.
    pub fn get_co2_history(&self) -> (history: &[u16])
        ensures
            history@ == self@.co2_history,
            history@.len() <= CO2_BUFFER_CAPACITY,
    {
        self.co2_history.as_slice()
    }

    /// The battery level to show.
    pub fn get_battery_level(&self) -> (level: BatteryLevel)
        ensures
            level == self@.battery_level(),
    {
        if self.is_charging {
            BatteryLevel::Charging
        } else if self.battery_percent <= 24 {
            BatteryLevel::Bat000
        } else if self.battery_percent <= 44 {
            BatteryLevel::Bat020
        } else if self.battery_percent <= 58 {
            BatteryLevel::Bat040
        } else if self.battery_percent <= 72 {
            BatteryLevel::Bat060
        } else if self.battery_percent <= 86 {
            BatteryLevel::Bat080
        } else {
            BatteryLevel::Bat100
        }
    }

    /// Calibration state of the air-quality sensor.
    pub fn get_ens160_calibration_state(&self) -> (state: Ens160CalibrationState)
        ensures
            state == self@.ens160_calibration_state,
    {
        self.ens160_calibration_state
    }

    /// Starts the calibration period of the air-quality sensor at
    /// `start_time`, in seconds since boot.
    pub fn start_ens160_calibration(&mut self, start_time: u64)
        ensures
            final(self)@ == (SystemStateView {
                ens160_calibration_state: Ens160CalibrationState {
                    is_calibrated: false,
                    calibration_start_time: Some(start_time),
                },
                ..old(self)@
            }),
    {
        self.ens160_calibration_state =
        Ens160CalibrationState { is_calibrated: false, calibration_start_time: Some(start_time) };
    }

    /// Marks the air-quality sensor as fully calibrated.
    pub fn mark_ens160_calibrated(&mut self)
        ensures
            final(self)@ == (SystemStateView {
                ens160_calibration_state: Ens160CalibrationState {
                    is_calibrated: true,
                    calibration_start_time: None,
                },
                ..old(self)@
            }),
    {
        self.ens160_calibration_state =
        Ens160CalibrationState { is_calibrated: true, calibration_start_time: None };
    }

    /// Forgets the calibration of the air-quality sensor, as after a sensor
    /// reset.
    pub fn reset_ens160_calibration(&mut self)
        ensures
            final(self)@ == (SystemStateView {
                ens160_calibration_state: Ens160CalibrationState {
                    is_calibrated: false,
                    calibration_start_time: None,
                },
                ..old(self)@
            }),
    {
        self.ens160_calibration_state =
        Ens160CalibrationState { is_calibrated: false, calibration_start_time: None };
    }
}

/// The battery level never falls as the percentage rises, and is `Charging`
/// exactly while charging.
pub proof fn lemma_battery_level_monotone(lower: u8, higher: u8)
    requires
        lower <= higher,
    ensures
        battery_rank(battery_level_of(false, lower)) <= battery_rank(
            battery_level_of(false, higher),
        ),
        battery_level_of(false, lower) != BatteryLevel::Charging,
        forall|percent: u8| battery_level_of(true, percent) == BatteryLevel::Charging,
{
}

/// Position of a battery level on the scale from empty to full; charging
/// stands apart at zero.
pub open spec fn battery_rank(level: BatteryLevel) -> int {
    match level {
        BatteryLevel::Charging => 0,
        BatteryLevel::Bat000 => 1,
        BatteryLevel::Bat020 => 2,
        BatteryLevel::Bat040 => 3,
        BatteryLevel::Bat060 => 4,
        BatteryLevel::Bat080 => 5,
        BatteryLevel::Bat100 => 6,
    }
}

} // verus!
