//! Power monitoring: from a sample of the supply voltage to the battery
//! events of the system.
//!
//! Voltages are in millivolts. Sampling the converter is left to the caller;
//! what a sample means, and which event it gives rise to, is decided here.

use vstd::prelude::*;
use crate::event::Event;
use crate::median::{median_of, samples_at_most, MedianFilter5};
use crate::buffers::push_evicting;
use crate::watchdog::{report_task_failure, report_task_success, SystemHealth, TaskId};

verus! {

/// Interval between two voltage measurements, in seconds.
pub const MEASUREMENT_INTERVAL_S: u64 = 4;

/// Time allowed for one conversion, in milliseconds.
pub const ADC_TIMEOUT_MS: u64 = 200;

/// A supply voltage above this (4.4 V) means that the battery is charging.
pub const CHARGING_VOLTAGE_THRESHOLD_MV: u32 = 4_400;

/// Window of the median filter applied to the voltage on battery power.
pub const MEDIAN_WINDOW_SIZE: usize = 5;

/// What the supply pin reads low by (0.27 V).
pub const VSYS_VOLTAGE_OFFSET_MV: u32 = 270;

/// Voltage of an empty battery (3.0 V).
pub const MIN_VOLTAGE_MV: u32 = 3_000;

/// Voltage of a full battery (4.1 V).
pub const MAX_VOLTAGE_MV: u32 = 4_100;

/// Millivolts at the pin per 4096 counts of the converter: a 3.3 V reference
/// behind a divider by three.
pub const FULL_SCALE_MV: u32 = 9_900;

/// Counts of the 12-bit converter at full scale.
pub const ADC_RESOLUTION: u32 = 4_096;

/// Outcome of one conversion.
#[derive(Debug, Clone, Copy, PartialEq, Eq, Structural)]
pub enum AdcReading {
    /// The converter returned this count.
    Value(u16),
    /// The converter reported a failed conversion.
    ConversionFailed,
    /// The converter did not answer in time.
    TimedOut,
}

/// Why no voltage could be measured.
#[derive(Debug, Clone, Copy, PartialEq, Eq, Structural)]
pub enum VoltageError {
    /// The conversion failed, timed out, or returned a count of zero.
    ConversionFailed,
}

/// The supply voltage that a converter count stands for.
pub open spec fn voltage_of(adc_value: int) -> int {
    adc_value * FULL_SCALE_MV / (ADC_RESOLUTION as int) + VSYS_VOLTAGE_OFFSET_MV
}

/// The battery percentage that a voltage stands for: linear between the
/// voltages of an empty and a full battery, rounded down.
pub open spec fn percentage_of(voltage: int) -> int {
    if voltage >= MAX_VOLTAGE_MV {
        100
    } else if voltage <= MIN_VOLTAGE_MV {
        0
    } else {
        (voltage - MIN_VOLTAGE_MV) * 100 / (MAX_VOLTAGE_MV - MIN_VOLTAGE_MV)
    }
}

/// The voltage that a conversion outcome stands for, if any: a failed or
/// late conversion gives none, and neither does a count of zero.
pub open spec fn voltage_read(reading: AdcReading) -> Result<int, VoltageError> {
    match reading {
        AdcReading::Value(adc_value) => if adc_value == 0 {
            Err(VoltageError::ConversionFailed)
        } else {
            Ok(voltage_of(adc_value as int))
        },
        AdcReading::ConversionFailed => Err(VoltageError::ConversionFailed),
        AdcReading::TimedOut => Err(VoltageError::ConversionFailed),
    }
}

/// Converts a converter count to the supply voltage.
pub fn adc_value_to_voltage(adc_value: u16) -> (voltage: u32)
    ensures
        voltage == voltage_of(adc_value as int),
        VSYS_VOLTAGE_OFFSET_MV <= voltage <= 158_670,
{
    adc_value as u32 * FULL_SCALE_MV / ADC_RESOLUTION + VSYS_VOLTAGE_OFFSET_MV
}

/// Converts a voltage to the battery percentage.
pub fn voltage_to_percentage(voltage: u32) -> (percentage: u8)
    ensures
        percentage == percentage_of(voltage as int),
        percentage <= 100,
{
    if voltage >= MAX_VOLTAGE_MV {
        100
    } else if voltage <= MIN_VOLTAGE_MV {
        0
    } else {
        ((voltage - MIN_VOLTAGE_MV) * 100 / (MAX_VOLTAGE_MV - MIN_VOLTAGE_MV)) as u8
    }
}

/// Interprets the outcome of a conversion as a voltage.
pub fn read_voltage(reading: AdcReading) -> (result: Result<u32, VoltageError>)
    ensures
        result is Ok <==> voltage_read(reading) is Ok,
        result matches Ok(voltage) ==> voltage_read(reading) == Ok::<int, VoltageError>(
            voltage as int,
        ),
        result matches Err(error) ==> voltage_read(reading) == Err::<int, VoltageError>(error),
{
    match reading {
        AdcReading::Value(adc_value) => {
            if adc_value == 0 {
                return Err(VoltageError::ConversionFailed);
            }
            Ok(adc_value_to_voltage(adc_value))
        },
        AdcReading::ConversionFailed => Err(VoltageError::ConversionFailed),
        AdcReading::TimedOut => Err(VoltageError::ConversionFailed),
    }
}

/// The mathematical state of the power monitor.
pub struct PowerState {
    /// Window of the voltage median filter: the last voltages measured on
    /// battery power, oldest first; at most five.
    pub window: Seq<u32>,
    /// The charging state last announced.
    pub prev_charging_state: Option<bool>,
    /// The battery percentage last measured on battery power.
    pub prev_battery_percentage: Option<u8>,
}

impl PowerState {
    /// The state at start-up.
    pub open spec fn initial() -> Self {
        PowerState {
            window: Seq::empty(),
            prev_charging_state: None,
            prev_battery_percentage: None,
        }
    }

    /// The window holds at most five voltages, none of them above the
    /// charging threshold.
    pub open spec fn wf(self) -> bool {
        &&& self.window.len() <= MEDIAN_WINDOW_SIZE
        &&& samples_at_most(self.window, CHARGING_VOLTAGE_THRESHOLD_MV as int)
    }

    /// Whether `voltage` means that the battery is charging.
    pub open spec fn is_charging(voltage: u32) -> bool {
        voltage > CHARGING_VOLTAGE_THRESHOLD_MV
    }

    /// The window after `voltage`: only voltages on battery power enter it.
    pub open spec fn window_after(self, voltage: u32) -> Seq<u32> {
        if Self::is_charging(voltage) {
            self.window
        } else {
            push_evicting(self.window, MEDIAN_WINDOW_SIZE as int, voltage)
        }
    }

    /// The voltage that counts: the measurement itself while charging, the
    /// moving median of the measurements on battery power.
    pub open spec fn final_voltage(self, voltage: u32) -> int {
        if Self::is_charging(voltage) {
            voltage as int
        } else {
            median_of(self.window_after(voltage))
        }
    }

    /// The battery percentage after `voltage`.
    pub open spec fn percentage_after(self, voltage: u32) -> int {
        percentage_of(self.final_voltage(voltage))
    }

    /// The state after `voltage` has been measured.
    pub open spec fn after(self, voltage: u32) -> Self {
        let charging = Self::is_charging(voltage);
        PowerState {
            window: self.window_after(voltage),
            prev_charging_state: if self.prev_charging_state != Some(charging) {
                Some(charging)
            } else {
                self.prev_charging_state
            },
            prev_battery_percentage: if charging {
                self.prev_battery_percentage
            } else {
                Some(self.percentage_after(voltage) as u8)
            },
        }
    }

    /// The event that measuring `voltage` gives rise to. A change of the
    /// charging state is announced by a charging event or by the battery
    /// level; on battery power a changed percentage is announced by the
    /// battery level; otherwise there is nothing to announce.
    pub open spec fn event_for(self, voltage: u32) -> Option<Event> {
        let charging = Self::is_charging(voltage);
        let percentage = self.percentage_after(voltage) as u8;
        if self.prev_charging_state != Some(charging) {
            if charging {
                Some(Event::BatteryCharging)
            } else {
                Some(Event::BatteryLevel(percentage))
            }
        } else if !charging && self.prev_battery_percentage != Some(percentage) {
            Some(Event::BatteryLevel(percentage))
        } else {
            None
        }
    }
}

/// The power monitor: remembers what it last announced, so that events are
/// sent on changes only.
pub struct PowerMonitor {
    voltage_median: MedianFilter5,
    prev_charging_state: Option<bool>,
    prev_battery_percentage: Option<u8>,
}

impl PowerMonitor {
    /// The mathematical state of this monitor.
    pub closed spec fn view(&self) -> PowerState {
        PowerState {
            window: self.voltage_median@,
            prev_charging_state: self.prev_charging_state,
            prev_battery_percentage: self.prev_battery_percentage,
        }
    }

    /// The monitor is in a state that it can reach from [`Self::new`].
    pub closed spec fn wf(&self) -> bool {
        self@.wf() && self.voltage_median.wf()
    }

    /// A monitor that has measured and announced nothing.
    pub fn new() -> (monitor: Self)
        ensures
            monitor@ == PowerState::initial(),
            monitor.wf(),
    {
        PowerMonitor {
            voltage_median: MedianFilter5::new(),
            prev_charging_state: None,
            prev_battery_percentage: None,
        }
    }

    /// Takes in a measured voltage and returns the event to send, if any.
    pub fn process_voltage(&mut self, voltage: u32) -> (event: Option<Event>)
        requires
            old(self).wf(),
        ensures
            final(self).wf(),
            final(self)@ == old(self)@.after(voltage),
            event == old(self)@.event_for(voltage),
            event matches Some(Event::BatteryLevel(percentage)) ==> percentage <= 100,
    {
        let is_charging = voltage > CHARGING_VOLTAGE_THRESHOLD_MV;
        let final_voltage = if is_charging {
            voltage
        } else {
            proof {
                self.voltage_median.lemma_wf();
            }
            self.voltage_median.add_value(voltage);
            match self.voltage_median.median() {
                Some(median) => median,
                None => voltage,
            }
        };
        let battery_percentage = voltage_to_percentage(final_voltage);
        let charging_state_changed = match self.prev_charging_state {
            Some(previous) => previous != is_charging,
            None => true,
        };
        let battery_level_changed = !is_charging && match self.prev_battery_percentage {
            Some(previous) => previous != battery_percentage,
            None => true,
        };
        let mut event: Option<Event> = None;
        if charging_state_changed {
            if is_charging {
                event = Some(Event::BatteryCharging);
            } else {
                event = Some(Event::BatteryLevel(battery_percentage));
            }
            self.prev_charging_state = Some(is_charging);
        } else if battery_level_changed {
            event = Some(Event::BatteryLevel(battery_percentage));
        }
        if !is_charging {
            self.prev_battery_percentage = Some(battery_percentage);
        }
        event
    }

    /// Takes in the outcome of a conversion: a voltage is processed and the
    /// task reported healthy; without a voltage the task is reported as
    /// failed and nothing else changes.
    pub fn process_reading(&mut self, health: &mut SystemHealth, reading: AdcReading) -> (event:
        Option<Event>)
        requires
            old(self).wf(),
        ensures
            final(self).wf(),
            final(health)@ == old(health)@.report(TaskId::Vsys, voltage_read(reading) is Ok),
            voltage_read(reading) matches Ok(voltage) ==> final(self)@ == old(self)@.after(
                voltage as u32,
            ) && event == old(self)@.event_for(voltage as u32),
            voltage_read(reading) is Err ==> final(self)@ == old(self)@ && event is None,
    {
        match read_voltage(reading) {
            Ok(voltage) => {
                let event = self.process_voltage(voltage);
                report_task_success(health, TaskId::Vsys);
                event
            },
            Err(_) => {
                report_task_failure(health, TaskId::Vsys);
                None
            },
        }
    }
}

/// Events are sent on changes only: a measurement that repeats the charging
/// state last announced and, on battery power, the percentage last measured,
/// sends nothing; and a battery level that is sent never exceeds 100.
pub proof fn lemma_events_on_changes_only(state: PowerState, voltage: u32)
    requires
        state.wf(),
    ensures
        state.prev_charging_state == Some(true) && PowerState::is_charging(voltage)
            ==> state.event_for(voltage) is None && state.after(voltage) == state,
        state.prev_charging_state == Some(false) && !PowerState::is_charging(voltage)
            && state.prev_battery_percentage == Some(state.percentage_after(voltage) as u8)
            ==> state.event_for(voltage) is None,
        state.prev_charging_state != Some(PowerState::is_charging(voltage)) ==> state.event_for(
            voltage,
        ) is Some,
        state.event_for(voltage) matches Some(Event::BatteryLevel(percentage)) ==> percentage
            <= 100,
        state.event_for(voltage) == Some(Event::BatteryCharging) ==> PowerState::is_charging(
            voltage,
        ),
{
    let v = state.final_voltage(voltage);
    assert(0 <= percentage_of(v) <= 100) by {
        if MIN_VOLTAGE_MV < v < MAX_VOLTAGE_MV {
            assert(0 <= (v - 3000) * 100 / 1100 <= 100) by (nonlinear_arith)
                requires
                    3000 < v < 4100,
            ;
        }
    }
}

} // verus!
