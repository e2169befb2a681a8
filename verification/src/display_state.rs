//! The display's own copy of what it shows: battery state, last sensor
//! reading, CO2 history and display mode.

use vstd::prelude::*;
use ens160_aq::data::AirQualityIndex;
use crate::buffers::{push_evicting, Co2Buffer, CO2_BUFFER_CAPACITY};

verus! {

/// The two views the display alternates between.
#[derive(Debug, PartialEq, Eq, Copy, Clone, Structural)]
pub enum DisplayMode {
    /// Current sensor values.
    RawData,
    /// Bar chart of the CO2 history.
    Co2History,
}

impl DisplayMode {
    /// The other view.
    pub open spec fn toggled(self) -> DisplayMode {
        match self {
            DisplayMode::RawData => DisplayMode::Co2History,
            DisplayMode::Co2History => DisplayMode::RawData,
        }
    }
}

/// A sensor reading as the display shows it.
#[derive(Clone, Copy, Debug, PartialEq)]
pub struct SensorData {
    /// Temperature in thousandths of a degree Celsius.
    pub temperature: i32,
    /// Humidity in thousandths of %RH.
    pub humidity: i32,
    /// Equivalent CO2 in ppm.
    pub co2: u16,
    /// Ethanol in ppb.
    pub etoh: u16,
    /// Air quality index.
    pub air_quality: AirQualityIndex,
}

/// Charge level of the battery, as the display shows it.
#[derive(PartialEq, Debug, Clone, Copy, Eq, Structural)]
pub enum BatteryLevel {
    /// The battery is charging.
    Charging,
    /// Roughly a sixth of the run time is left.
    Bat000,
    /// Roughly a third of the run time is left.
    Bat020,
    /// Roughly half of the run time is left.
    Bat040,
    /// Roughly two thirds of the run time are left.
    Bat060,
    /// Roughly five sixths of the run time are left.
    Bat080,
    /// Almost full.
    Bat100,
}

/// The battery level shown for a charging state and a percentage. The lower
/// steps are wider to make up for the quick drop of the voltage near the end.
pub open spec fn battery_level_of(is_charging: bool, percent: u8) -> BatteryLevel {
    if is_charging {
        BatteryLevel::Charging
    } else if percent <= 25 {
        BatteryLevel::Bat000
    } else if percent <= 45 {
        BatteryLevel::Bat020
    } else if percent <= 65 {
        BatteryLevel::Bat040
    } else if percent <= 80 {
        BatteryLevel::Bat060
    } else if percent <= 90 {
        BatteryLevel::Bat080
    } else {
        BatteryLevel::Bat100
    }
}

/// The mathematical content of a [`DisplayState`].
pub struct DisplayStateView {
    /// Battery level in percent.
    pub battery_percent: u8,
    /// Whether the battery is charging.
    pub is_charging: bool,
    /// The last sensor reading, if any has arrived.
    pub last_sensor_data: Option<SensorData>,
    /// The last CO2 readings, oldest first; at most ten.
    pub co2_history: Seq<u16>,
    /// The view the display is in.
    pub display_mode: DisplayMode,
}

impl DisplayStateView {
    /// The state at start-up.
    pub open spec fn initial() -> Self {
        DisplayStateView {
            battery_percent: 0,
            is_charging: false,
            last_sensor_data: None,
            co2_history: Seq::empty(),
            display_mode: DisplayMode::RawData,
        }
    }

    /// The battery level shown in this state.
    pub open spec fn battery_level(self) -> BatteryLevel {
        battery_level_of(self.is_charging, self.battery_percent)
    }
}

/// The current state of the display.
pub struct DisplayState {
    battery_percent: u8,
    is_charging: bool,
    last_sensor_data: Option<SensorData>,
    co2_history: Co2Buffer,
    display_mode: DisplayMode,
}

impl DisplayState {
    /// The mathematical content of this state.
    pub closed spec fn view(&self) -> DisplayStateView {
        DisplayStateView {
            battery_percent: self.battery_percent,
            is_charging: self.is_charging,
            last_sensor_data: self.last_sensor_data,
            co2_history: self.co2_history@,
            display_mode: self.display_mode,
        }
    }

    /// The state at start-up: an empty battery that is not charging, no
    /// sensor reading, an empty history, the raw-data view.
    pub fn new() -> (state: Self)
        ensures
            state@ == DisplayStateView::initial(),
    {
        DisplayState {
            battery_percent: 0,
            is_charging: false,
            last_sensor_data: None,
            co2_history: Co2Buffer::new(),
            display_mode: DisplayMode::RawData,
        }
    }

    /// Stores `data` as the last sensor reading.
    pub fn set_last_sensor_data(&mut self, data: SensorData)
        ensures
            final(self)@ == (DisplayStateView { last_sensor_data: Some(data), ..old(self)@ }),
    {
        self.last_sensor_data = Some(data);
    }

    /// The last sensor reading, if any has arrived.
    pub fn last_sensor_data(&self) -> (data: Option<SensorData>)
        ensures
            data == self@.last_sensor_data,
    {
        self.last_sensor_data
    }

    /// Stores the battery percentage.
    pub fn set_battery_percent(&mut self, percent: u8)
        ensures
            final(self)@ == (DisplayStateView { battery_percent: percent, ..old(self)@ }),
    {
        self.battery_percent = percent;
    }

    /// Stores the charging state.
    pub fn set_charging(&mut self, is_charging: bool)
        ensures
            final(self)@ == (DisplayStateView { is_charging: is_charging, ..old(self)@ }),
    {
        self.is_charging = is_charging;
    }

    /// Appends a CO2 reading to the history; the oldest one leaves once ten
    /// are held.
    pub fn add_co2_measurement(&mut self, co2: u16)
        ensures
            final(self)@ == (DisplayStateView {
                co2_history: push_evicting(old(self)@.co2_history, CO2_BUFFER_CAPACITY as int, co2),
                ..old(self)@
            }),
            final(self)@.co2_history.len() <= CO2_BUFFER_CAPACITY,
    {
        self.co2_history.push_evicting(co2);
    }

    /// Switches to the other display view.
    pub fn toggle_display_mode(&mut self)
        ensures
            final(self)@ == (DisplayStateView {
                display_mode: old(self)@.display_mode.toggled(),
                ..old(self)@
            }),
    {
        self.display_mode =
        match self.display_mode {
            DisplayMode::RawData => DisplayMode::Co2History,
            DisplayMode::Co2History => DisplayMode::RawData,
        };
    }

    /// The view the display is in.
    pub fn get_display_mode(&self) -> (mode: DisplayMode)
        ensures
            mode == self@.display_mode,
    {
        self.display_mode
    }

    /// The CO2 history, oldest first: at most the last ten readings.
    pub fn get_co2_history(&self) -> (history: &[u16])
        ensures
            history@ == self@.co2_history,
            history@.len() <= CO2_BUFFER_CAPACITY,
    {
        self.co2_history.as_slice()
    }

    /// The battery level to show.
    pub fn get_battery_level(&self) -> (level: BatteryLevel)
        ensures
            level == self@.battery_level(),
    {
        if self.is_charging {
            BatteryLevel::Charging
        } else if self.battery_percent <= 25 {
            BatteryLevel::Bat000
        } else if self.battery_percent <= 45 {
            BatteryLevel::Bat020
        } else if self.battery_percent <= 65 {
            BatteryLevel::Bat040
        } else if self.battery_percent <= 80 {
            BatteryLevel::Bat060
        } else if self.battery_percent <= 90 {
            BatteryLevel::Bat080
        } else {
            BatteryLevel::Bat100
        }
    }
}

} // verus!
