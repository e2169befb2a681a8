//! Events carried by the system's event bus.
//!
//! The bus itself is a bounded first-in-first-out queue with several
//! producers and the orchestrator as its only consumer; a producer that
//! finds it full waits, so no event is dropped.

use vstd::prelude::*;
use ens160_aq::data::AirQualityIndex;

verus! {

/// Number of events the bus holds before producers have to wait.
pub const EVENT_CHANNEL_CAPACITY: usize = 10;

/// `ens160_aq::data::AirQualityIndex`: the sensor's air quality index. The
/// library never looks inside a value of it; it only carries it along.
#[verifier::external_type_specification]
#[verifier::external_body]
pub struct ExAirQualityIndex(AirQualityIndex);

/// An event of the system.
#[derive(Debug, Clone, Copy, PartialEq)]
pub enum Event {
    /// One consistent reading of both sensors.
    SensorData {
        /// Temperature for display, in thousandths of a degree Celsius.
        temperature: i32,
        /// Calibrated humidity, in thousandths of %RH.
        humidity: i32,
        /// Equivalent CO2 in ppm.
        co2: u16,
        /// Ethanol in ppb.
        etoh: u16,
        /// Air quality index as computed by the sensor.
        air_quality: AirQualityIndex,
    },
    /// The battery is charging.
    BatteryCharging,
    /// The battery is discharging at this level, in percent from 0 to 100.
    BatteryLevel(u8),
    /// The display is asked to switch between its views.
    ToggleDisplayMode,
}

} // verus!
