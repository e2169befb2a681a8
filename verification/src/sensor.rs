//! Sensor acquisition: the state machine that sequences the climate sensor
//! and the air-quality sensor, and the reduction of three air-quality
//! samples to one reading.
//!
//! The machine performs no input or output itself. After every step it names
//! the next action to perform on the hardware; the outcome of that action is
//! the input of the following step. One cycle reads the climate sensor,
//! pushes temperature and humidity into the air-quality sensor's
//! compensation, takes three air-quality samples, reduces them to one
//! reading by moving medians, and publishes the reading as an event.

use vstd::prelude::*;
use ens160_aq::data::AirQualityIndex;
use crate::arith::{abs, clamp, clamp_i64, div_trunc, trunc_div};
use crate::buffers::SampleBuffer;
use crate::event::Event;
use crate::humidity_calibrator::{CalibrationState, HumidityCalibrator};
use crate::median::{
    is_median,
    lemma_median_bounded,
    lemma_median_of_odd_exists,
    lemma_median_of_three,
    lemma_median_unique,
    median_of,
    middle_of_three,
    samples_at_most,
    MedianFilter3,
};

verus! {

/// Offset of the climate sensor's temperature (-3.5 degrees Celsius), applied
/// to the value that is displayed.
pub const AHT21_TEMPERATURE_OFFSET: i32 = -3_500;

/// Warm-up time of the air-quality sensor, in seconds.
pub const WARMUP_TIME_S: u64 = 180;

/// Interval between two acquisition cycles, in seconds.
pub const READ_INTERVAL_S: u64 = 300;

/// Number of air-quality samples reduced to one reading.
pub const ENS160_MEDIAN_READINGS: usize = 3;

/// Temperature assumed for compensation until the climate sensor has been
/// read (25 degrees Celsius).
pub const DEFAULT_TEMPERATURE: i32 = 25_000;

/// Humidity assumed for compensation until the climate sensor has been read
/// (50 %RH).
pub const DEFAULT_HUMIDITY: i32 = 50_000;

/// Why an acquisition step failed.
#[derive(Debug, Clone, Copy, PartialEq, Eq, Structural)]
pub enum SensorFailure {
    /// The climate sensor could not be initialised or calibrated.
    Aht21Init,
    /// The air-quality sensor could not be initialised.
    Ens160Init,
    /// The air-quality sensor's interrupt pin could not be configured.
    InterruptPinConfig,
    /// The climate sensor could not be read.
    Aht21Read,
    /// Temperature and humidity compensation could not be set.
    Compensation,
    /// The air-quality sensor's status could not be read.
    Status,
    /// The equivalent CO2 value could not be read.
    Eco2,
    /// The ethanol value could not be read.
    Ethanol,
    /// The air quality index could not be read.
    AirQuality,
    /// No air-quality sample is available to reduce.
    NoSamples,
}

impl SensorFailure {
    /// The failure in words, for diagnostics.
    pub fn label(&self) -> (text: &'static str)
        ensures
            text@ == match *self {
                SensorFailure::Aht21Init => "Failed to initialize AHT21"@,
                SensorFailure::Ens160Init => "Failed to initialize ENS160"@,
                SensorFailure::InterruptPinConfig => "Failed to configure ENS160 interrupt pin"@,
                SensorFailure::Aht21Read => "Failed to read AHT21 sensor"@,
                SensorFailure::Compensation => "Failed to set temperature and humidity compensation"@,
                SensorFailure::Status => "Failed to get ENS160 status"@,
                SensorFailure::Eco2 => "Failed to get eCO2"@,
                SensorFailure::Ethanol => "Failed to get ethanol"@,
                SensorFailure::AirQuality => "Failed to get Air Quality Index"@,
                SensorFailure::NoSamples => "No CO2-AQI pairs available"@,
            },
    {
        match *self {
            SensorFailure::Aht21Init => "Failed to initialize AHT21",
            SensorFailure::Ens160Init => "Failed to initialize ENS160",
            SensorFailure::InterruptPinConfig => "Failed to configure ENS160 interrupt pin",
            SensorFailure::Aht21Read => "Failed to read AHT21 sensor",
            SensorFailure::Compensation => "Failed to set temperature and humidity compensation",
            SensorFailure::Status => "Failed to get ENS160 status",
            SensorFailure::Eco2 => "Failed to get eCO2",
            SensorFailure::Ethanol => "Failed to get ethanol",
            SensorFailure::AirQuality => "Failed to get Air Quality Index",
            SensorFailure::NoSamples => "No CO2-AQI pairs available",
        }
    }
}

/// One reading of the climate sensor, raw and corrected.
#[derive(Debug, Clone, Copy, PartialEq, Eq, Structural)]
pub struct Aht21Readings {
    /// Raw temperature, which feeds the air-quality sensor's compensation.
    pub raw_temperature: i32,
    /// Temperature for display, with the sensor's offset applied.
    pub display_temperature: i32,
    /// Raw humidity.
    pub raw_humidity: i32,
    /// Humidity after calibration.
    pub calibrated_humidity: i32,
}

/// One reading of the air-quality sensor, reduced from three samples.
#[derive(Debug, Clone, Copy, PartialEq)]
pub struct Ens160Readings {
    /// Equivalent CO2 in ppm.
    pub co2: u16,
    /// Ethanol in ppb.
    pub etoh: u16,
    /// Air quality index.
    pub air_quality: AirQualityIndex,
}

/// What the calibrator is doing, for diagnostics.
#[derive(Debug, Clone, Copy, PartialEq, Eq, Structural)]
pub enum CalibrationStatus {
    /// The baseline is not established.
    EstablishingBaseline,
    /// A rapid-change period with a confirmed baseline shift.
    BaselineShift,
    /// A rapid-change period.
    RapidChange,
    /// Both drift corrections are at work.
    HybridDriftCorrection,
}

/// The status that goes with a calibration state.
pub open spec fn calibration_status_of(state: CalibrationState) -> CalibrationStatus {
    if !state.is_calibrated() {
        CalibrationStatus::EstablishingBaseline
    } else if state.in_rapid_change_period {
        if state.baseline_shifted {
            CalibrationStatus::BaselineShift
        } else {
            CalibrationStatus::RapidChange
        }
    } else {
        CalibrationStatus::HybridDriftCorrection
    }
}

/// The status of `calibrator`.
pub fn calibration_status(calibrator: &HumidityCalibrator) -> (status: CalibrationStatus)
    ensures
        status == calibration_status_of(calibrator@),
{
    let info = calibrator.get_calibration_info();
    if !info.0 {
        CalibrationStatus::EstablishingBaseline
    } else if info.4 {
        if calibrator.baseline_shifted() {
            CalibrationStatus::BaselineShift
        } else {
            CalibrationStatus::RapidChange
        }
    } else {
        CalibrationStatus::HybridDriftCorrection
    }
}

/// The temperature shown for a raw temperature: the sensor's offset applied,
/// kept within the range of the representation.
pub open spec fn display_temperature_of(raw_temperature: int) -> int {
    clamp(raw_temperature + AHT21_TEMPERATURE_OFFSET, i32::MIN as int, i32::MAX as int)
}

/// Whole percent of a humidity for the compensation register: the fraction
/// is dropped, and the value is kept within what the register holds.
pub open spec fn humidity_percent_of(humidity: int) -> int {
    clamp(trunc_div(humidity, 1000), 0, u16::MAX as int)
}

/// The readings that a raw climate measurement gives in calibration state
/// `state`: the measurement is learned from first, then corrected.
pub open spec fn climate_readings_of(
    state: CalibrationState,
    raw_temperature: i32,
    raw_humidity: i32,
) -> Aht21Readings {
    Aht21Readings {
        raw_temperature,
        display_temperature: display_temperature_of(raw_temperature as int) as i32,
        raw_humidity,
        calibrated_humidity: state.add_measurement(raw_temperature, raw_humidity).calibrate(
            raw_humidity,
        ) as i32,
    }
}

/// Hands a raw climate measurement to the calibrator, for learning and for
/// correction, and returns the resulting readings.
pub fn process_climate_reading(
    calibrator: &mut HumidityCalibrator,
    raw_temperature: i32,
    raw_humidity: i32,
) -> (readings: Aht21Readings)
    requires
        old(calibrator).wf(),
    ensures
        final(calibrator).wf(),
        final(calibrator)@ == old(calibrator)@.add_measurement(raw_temperature, raw_humidity),
        readings == climate_readings_of(old(calibrator)@, raw_temperature, raw_humidity),
        readings.calibrated_humidity == final(calibrator)@.calibrate(raw_humidity),
{
    calibrator.add_measurement(raw_temperature, raw_humidity);
    let calibrated_humidity = calibrator.calibrate_humidity(raw_temperature, raw_humidity);
    let display_temperature = clamp_i64(
        raw_temperature as i64 + AHT21_TEMPERATURE_OFFSET as i64,
        i32::MIN as i64,
        i32::MAX as i64,
    ) as i32;
    Aht21Readings { raw_temperature, display_temperature, raw_humidity, calibrated_humidity }
}

/// Whole percent of `humidity` for the compensation register.
pub fn humidity_percent(humidity: i32) -> (percent: u16)
    ensures
        percent == humidity_percent_of(humidity as int),
{
    clamp_i64(div_trunc(humidity as i64, 1000), 0, u16::MAX as i64) as u16
}

/// Whether sample `i` is the first of `pairs` whose CO2 value is closest to
/// `target`: no sample is closer, and every earlier one is farther.
pub open spec fn is_first_closest(pairs: Seq<(u16, AirQualityIndex)>, target: int, i: int) -> bool {
    &&& 0 <= i < pairs.len()
    &&& forall|j: int|
        0 <= j < pairs.len() ==> abs(pairs[i].0 - target) <= abs(#[trigger] pairs[j].0 - target)
    &&& forall|j: int| 0 <= j < i ==> abs(pairs[i].0 - target) < abs(#[trigger] pairs[j].0 - target)
}

/// The position of the first sample of `pairs` whose CO2 value is closest to
/// `target`.
pub open spec fn first_closest(pairs: Seq<(u16, AirQualityIndex)>, target: int) -> int {
    choose|i: int| is_first_closest(pairs, target, i)
}

/// There is only one first closest sample.
pub proof fn lemma_first_closest_unique(
    pairs: Seq<(u16, AirQualityIndex)>,
    target: int,
    i: int,
    k: int,
)
    requires
        is_first_closest(pairs, target, i),
        is_first_closest(pairs, target, k),
    ensures
        i == k,
        first_closest(pairs, target) == i,
{
    let chosen = first_closest(pairs, target);
    assert(is_first_closest(pairs, target, chosen));
    assert(abs(pairs[i].0 - target) <= abs(pairs[k].0 - target));
    assert(abs(pairs[k].0 - target) <= abs(pairs[i].0 - target));
    assert(abs(pairs[i].0 - target) <= abs(pairs[chosen].0 - target));
    assert(abs(pairs[chosen].0 - target) <= abs(pairs[i].0 - target));
}

/// Where some sample's CO2 value equals the target, the sample selected is
/// the first such sample.
pub proof fn lemma_exact_match_is_selected(
    pairs: Seq<(u16, AirQualityIndex)>,
    target: int,
    k: int,
)
    requires
        0 <= k < pairs.len(),
        pairs[k].0 == target,
        forall|j: int| 0 <= j < k ==> (#[trigger] pairs[j]).0 != target,
    ensures
        is_first_closest(pairs, target, k),
        first_closest(pairs, target) == k,
{
    assert(is_first_closest(pairs, target, k));
    lemma_first_closest_unique(pairs, target, k, k);
}

/// Distance between two CO2 values.
fn co2_distance(a: u16, b: u16) -> (distance: u16)
    ensures
        distance == abs(a - b),
{
    if a >= b {
        a - b
    } else {
        b - a
    }
}

/// Finds the first sample whose CO2 value is closest to `median_co2`.
fn closest_pair_index(pairs: &[(u16, AirQualityIndex)], median_co2: u16) -> (index: usize)
    requires
        pairs@.len() > 0,
    ensures
        is_first_closest(pairs@, median_co2 as int, index as int),
{
    let mut best: usize = 0;
    let mut best_distance: u16 = co2_distance(pairs[0].0, median_co2);
    let mut i: usize = 1;
    while i < pairs.len()
        invariant
            1 <= i <= pairs@.len(),
            0 <= best < i,
            best_distance == abs(pairs@[best as int].0 - median_co2),
            forall|j: int|
                0 <= j < i ==> abs(pairs@[best as int].0 - median_co2) <= abs(
                    #[trigger] pairs@[j].0 - median_co2,
                ),
            forall|j: int|
                0 <= j < best ==> abs(pairs@[best as int].0 - median_co2) < abs(
                    #[trigger] pairs@[j].0 - median_co2,
                ),
        decreases pairs@.len() - i,
    {
        let distance: u16 = co2_distance(pairs[i].0, median_co2);
        if distance < best_distance {
            best = i;
            best_distance = distance;
        }
        i = i + 1;
    }
    best
}

/// Selects, among `pairs` of a CO2 value and the air quality index read with
/// it, the index of the first pair whose CO2 value is closest to
/// `median_co2`. With no pair there is nothing to select.
pub fn select_air_quality(pairs: &[(u16, AirQualityIndex)], median_co2: u16) -> (selected:
    Option<AirQualityIndex>)
    ensures
        selected is None <==> pairs@.len() == 0,
        selected matches Some(air_quality) ==> is_first_closest(
            pairs@,
            median_co2 as int,
            first_closest(pairs@, median_co2 as int),
        ) && air_quality == pairs@[first_closest(pairs@, median_co2 as int)].1,
{
    if pairs.len() == 0 {
        return None;
    }
    let index = closest_pair_index(pairs, median_co2);
    proof {
        lemma_first_closest_unique(pairs@, median_co2 as int, index as int, index as int);
    }
    Some(pairs[index].1)
}

/// The reading that three or fewer samples reduce to: the medians of the CO2
/// and ethanol windows, and the air quality index read with the CO2 value
/// closest to the CO2 median.
pub open spec fn reduced_reading(
    co2_window: Seq<u32>,
    etoh_window: Seq<u32>,
    pairs: Seq<(u16, AirQualityIndex)>,
) -> Ens160Readings {
    Ens160Readings {
        co2: median_of(co2_window) as u16,
        etoh: median_of(etoh_window) as u16,
        air_quality: pairs[first_closest(pairs, median_of(co2_window))].1,
    }
}

/// Reduces the samples taken in one cycle to one reading. Fails where no
/// sample has been taken.
pub fn reduce_readings(
    co2_median: &MedianFilter3,
    etoh_median: &MedianFilter3,
    pairs: &[(u16, AirQualityIndex)],
) -> (result: Result<Ens160Readings, SensorFailure>)
    requires
        co2_median.wf(),
        etoh_median.wf(),
        samples_at_most(co2_median@, u16::MAX as int),
        samples_at_most(etoh_median@, u16::MAX as int),
    ensures
        result is Ok <==> co2_median@.len() > 0 && etoh_median@.len() > 0 && pairs@.len() > 0,
        result matches Ok(readings) ==> readings == reduced_reading(
            co2_median@,
            etoh_median@,
            pairs@,
        ) && is_median(co2_median@, readings.co2 as int) && is_median(
            etoh_median@,
            readings.etoh as int,
        ) && is_first_closest(pairs@, readings.co2 as int, first_closest(pairs@, readings.co2 as int)),
        result matches Err(failure) ==> failure == SensorFailure::NoSamples,
{
    let co2 = match co2_median.median() {
        Some(m) => m,
        None => { return Err(SensorFailure::NoSamples); },
    };
    let etoh = match etoh_median.median() {
        Some(m) => m,
        None => { return Err(SensorFailure::NoSamples); },
    };
    proof {
        lemma_median_bounded(co2_median@, u16::MAX as int, co2 as int);
        lemma_median_bounded(etoh_median@, u16::MAX as int, etoh as int);
    }
    let co2 = co2 as u16;
    let etoh = etoh as u16;
    match select_air_quality(pairs, co2) {
        Some(air_quality) => Ok(Ens160Readings { co2, etoh, air_quality }),
        None => Err(SensorFailure::NoSamples),
    }
}

/// For three samples the reduced CO2 value is the middle one of the three CO2
/// values, so some sample carries exactly that value, and the air quality
/// index selected is the one read with the first such sample.
pub proof fn lemma_three_samples_select_median_pair(
    pairs: Seq<(u16, AirQualityIndex)>,
    etoh_window: Seq<u32>,
)
    requires
        pairs.len() == 3,
    ensures
        ({
            let co2_window = seq![pairs[0].0 as u32, pairs[1].0 as u32, pairs[2].0 as u32];
            let reading = reduced_reading(co2_window, etoh_window, pairs);
            let selected = first_closest(pairs, reading.co2 as int);
            &&& reading.co2 == middle_of_three(
                pairs[0].0 as int,
                pairs[1].0 as int,
                pairs[2].0 as int,
            )
            &&& is_first_closest(pairs, reading.co2 as int, selected)
            &&& pairs[selected].0 == reading.co2
            &&& reading.air_quality == pairs[selected].1
            &&& forall|j: int| 0 <= j < selected ==> (#[trigger] pairs[j]).0 != reading.co2
        }),
{
    let a = pairs[0].0 as u32;
    let b = pairs[1].0 as u32;
    let c = pairs[2].0 as u32;
    let co2_window = seq![a, b, c];
    let mid = middle_of_three(a as int, b as int, c as int);
    lemma_median_of_three(a, b, c, mid);
    lemma_median_unique(co2_window, mid, median_of(co2_window));
    let k = if pairs[0].0 == mid {
        0int
    } else if pairs[1].0 == mid {
        1int
    } else {
        2int
    };
    lemma_exact_match_is_selected(pairs, mid, k);
}

/// Where the acquisition stands.
#[derive(Debug, Clone, Copy, PartialEq, Eq, Structural)]
pub enum SensorPhase {
    /// Both sensors are being initialised.
    Initializing,
    /// The air-quality sensor is warming up.
    WarmingUp,
    /// The climate sensor is being read.
    ReadingClimate,
    /// The compensation values are being set.
    SettingCompensation,
    /// The data-ready interrupt of the air-quality sensor is awaited.
    AwaitingData,
    /// The status of the air-quality sensor is being read.
    ReadingStatus,
    /// The equivalent CO2 value is being read.
    ReadingEco2,
    /// The ethanol value is being read.
    ReadingEthanol,
    /// The air quality index is being read.
    ReadingAirQuality,
    /// The cycle is over; the next one starts when the interval has passed.
    Idle,
    /// Initialisation failed; nothing more happens.
    Halted,
}

/// The outcome of the action that the machine asked for.
#[derive(Debug, Clone, Copy, PartialEq)]
pub enum SensorInput {
    /// Both sensors are initialised and configured.
    InitSucceeded,
    /// Initialisation failed for the given reason.
    InitFailed(SensorFailure),
    /// The time to wait has passed.
    TimerElapsed,
    /// The climate sensor gave this raw reading.
    ClimateRead {
        /// Raw temperature in thousandths of a degree Celsius.
        temperature: i32,
        /// Raw humidity in thousandths of %RH.
        humidity: i32,
    },
    /// The climate sensor could not be read.
    ClimateFailed,
    /// The compensation values are set.
    CompensationSet,
    /// The compensation values could not be set.
    CompensationFailed,
    /// The air-quality sensor signalled new data.
    DataReady,
    /// The status has been read.
    StatusRead,
    /// The status could not be read.
    StatusFailed,
    /// The equivalent CO2 value, in ppm.
    Eco2Read(u16),
    /// The equivalent CO2 value could not be read.
    Eco2Failed,
    /// The ethanol value, in ppb.
    EthanolRead(u16),
    /// The ethanol value could not be read.
    EthanolFailed,
    /// The air quality index.
    AirQualityRead(AirQualityIndex),
    /// The air quality index could not be read.
    AirQualityFailed,
}

/// What to do next on the hardware.
#[derive(Debug, Clone, Copy, PartialEq)]
pub enum SensorAction {
    /// Initialise both sensors, calibrate the climate sensor and configure
    /// the interrupt pin.
    Initialize,
    /// Report a healthy task and wait for the warm-up time.
    Warmup,
    /// Read the climate sensor.
    ReadClimate,
    /// Set the air-quality sensor's compensation to this temperature, in
    /// thousandths of a degree Celsius, and this humidity, in whole percent.
    SetCompensation {
        /// Raw temperature in thousandths of a degree Celsius.
        temperature: i32,
        /// Humidity in whole percent.
        humidity: u16,
    },
    /// Wait for the data-ready interrupt.
    WaitDataReady,
    /// Read the air-quality sensor's status.
    ReadStatus,
    /// Read the equivalent CO2 value.
    ReadEco2,
    /// Read the ethanol value.
    ReadEthanol,
    /// Read the air quality index.
    ReadAirQuality,
    /// Publish this event, report a healthy task and wait for the interval.
    Publish(Event),
    /// Report a failed iteration and wait for the interval.
    Fail(SensorFailure),
    /// Report a failed task and stop.
    Halt(SensorFailure),
    /// The input does not answer what the machine asked for; nothing changed.
    Unexpected,
}

impl SensorAction {
    /// What the task reports to the health supervisor with this action:
    /// success, failure, or nothing.
    pub open spec fn health_report_spec(self) -> Option<bool> {
        match self {
            SensorAction::Warmup => Some(true),
            SensorAction::Publish(_) => Some(true),
            SensorAction::Fail(_) => Some(false),
            SensorAction::Halt(_) => Some(false),
            _ => None,
        }
    }

    /// What the task reports to the health supervisor with this action:
    /// success, failure, or nothing.
    pub fn health_report(&self) -> (report: Option<bool>)
        ensures
            report == self.health_report_spec(),
    {
        match self {
            SensorAction::Warmup => Some(true),
            SensorAction::Publish(_) => Some(true),
            SensorAction::Fail(_) => Some(false),
            SensorAction::Halt(_) => Some(false),
            _ => None,
        }
    }
}

/// The mathematical state of the acquisition.
pub struct CycleState {
    /// Where the acquisition stands.
    pub phase: SensorPhase,
    /// Temperature last used for compensation.
    pub prev_temp: i32,
    /// Humidity last used for compensation.
    pub prev_humidity: i32,
    /// State of the humidity calibrator.
    pub calibration: CalibrationState,
    /// The climate readings of this cycle, if the sensor could be read.
    pub climate: Option<Aht21Readings>,
    /// Window of the CO2 median filter.
    pub co2_window: Seq<u32>,
    /// Window of the ethanol median filter.
    pub etoh_window: Seq<u32>,
    /// The CO2 value and air quality index of each sample of this cycle.
    pub pairs: Seq<(u16, AirQualityIndex)>,
    /// CO2 value of the sample being read.
    pub pending_co2: u16,
    /// Ethanol value of the sample being read.
    pub pending_etoh: u16,
}

impl CycleState {
    /// The state before initialisation.
    pub open spec fn initial() -> Self {
        CycleState {
            phase: SensorPhase::Initializing,
            prev_temp: DEFAULT_TEMPERATURE,
            prev_humidity: DEFAULT_HUMIDITY,
            calibration: CalibrationState::initial(),
            climate: None,
            co2_window: Seq::empty(),
            etoh_window: Seq::empty(),
            pairs: Seq::empty(),
            pending_co2: 0,
            pending_etoh: 0,
        }
    }

    /// Whether the machine is taking air-quality samples.
    pub open spec fn sampling(self) -> bool {
        self.phase == SensorPhase::AwaitingData || self.phase == SensorPhase::ReadingStatus
            || self.phase == SensorPhase::ReadingEco2 || self.phase == SensorPhase::ReadingEthanol
            || self.phase == SensorPhase::ReadingAirQuality
    }

    /// The calibrator is in a reachable state, the filters have seen exactly
    /// the samples of this cycle, and while samples are being taken the
    /// cycle is not yet complete.
    pub open spec fn wf(self) -> bool {
        &&& self.calibration.wf()
        &&& self.pairs.len() <= ENS160_MEDIAN_READINGS
        &&& self.co2_window.len() == self.pairs.len()
        &&& self.etoh_window.len() == self.pairs.len()
        &&& forall|i: int| 0 <= i < self.pairs.len() ==> #[trigger] self.co2_window[i] == self.pairs[i].0
        &&& samples_at_most(self.etoh_window, u16::MAX as int)
        &&& self.sampling() ==> self.pairs.len() < ENS160_MEDIAN_READINGS
    }

    /// The state and action after a failed step of a cycle: the cycle is
    /// over, the failure is reported, and the machine idles until the next
    /// cycle.
    pub open spec fn fail(self, failure: SensorFailure) -> (Self, SensorAction) {
        (CycleState { phase: SensorPhase::Idle, ..self }, SensorAction::Fail(failure))
    }

    /// The state and action after the climate sensor has been read: the
    /// measurement goes through the calibrator, and raw temperature and
    /// calibrated humidity become the compensation values.
    pub open spec fn climate_read(self, temperature: i32, humidity: i32) -> (Self, SensorAction) {
        let readings = climate_readings_of(self.calibration, temperature, humidity);
        (
            CycleState {
                phase: SensorPhase::SettingCompensation,
                calibration: self.calibration.add_measurement(temperature, humidity),
                climate: Some(readings),
                prev_temp: readings.raw_temperature,
                prev_humidity: readings.calibrated_humidity,
                ..self
            },
            SensorAction::SetCompensation {
                temperature: readings.raw_temperature,
                humidity: humidity_percent_of(readings.calibrated_humidity as int) as u16,
            },
        )
    }

    /// The state and action after the climate sensor could not be read: the
    /// cycle goes on with the previous compensation values.
    pub open spec fn climate_failed(self) -> (Self, SensorAction) {
        (
            CycleState { phase: SensorPhase::SettingCompensation, climate: None, ..self },
            SensorAction::SetCompensation {
                temperature: self.prev_temp,
                humidity: humidity_percent_of(self.prev_humidity as int) as u16,
            },
        )
    }

    /// The state and action after a sample has been completed by its air
    /// quality index. The sample enters both filters; after the third sample
    /// the cycle ends, with an event if the climate sensor was read in this
    /// cycle and with a failure otherwise.
    pub open spec fn sample_completed(self, air_quality: AirQualityIndex) -> (Self, SensorAction) {
        let taken = CycleState {
            co2_window: self.co2_window.push(self.pending_co2 as u32),
            etoh_window: self.etoh_window.push(self.pending_etoh as u32),
            pairs: self.pairs.push((self.pending_co2, air_quality)),
            ..self
        };
        if taken.pairs.len() < ENS160_MEDIAN_READINGS {
            (CycleState { phase: SensorPhase::AwaitingData, ..taken }, SensorAction::WaitDataReady)
        } else {
            let reading = reduced_reading(taken.co2_window, taken.etoh_window, taken.pairs);
            match self.climate {
                Some(climate) => (
                    CycleState { phase: SensorPhase::Idle, ..taken },
                    SensorAction::Publish(
                        Event::SensorData {
                            temperature: climate.display_temperature,
                            humidity: climate.calibrated_humidity,
                            co2: reading.co2,
                            etoh: reading.etoh,
                            air_quality: reading.air_quality,
                        },
                    ),
                ),
                None => taken.fail(SensorFailure::Aht21Read),
            }
        }
    }

    /// The state after `input` and the action to perform next.
    ///
    /// An input that does not answer the action the machine last asked for
    /// changes nothing and is answered by `Unexpected`.
    pub open spec fn step(self, input: SensorInput) -> (Self, SensorAction) {
        match (self.phase, input) {
            (SensorPhase::Initializing, SensorInput::InitSucceeded) => (
                CycleState { phase: SensorPhase::WarmingUp, ..self },
                SensorAction::Warmup,
            ),
            (SensorPhase::Initializing, SensorInput::InitFailed(failure)) => (
                CycleState { phase: SensorPhase::Halted, ..self },
                SensorAction::Halt(failure),
            ),
            (SensorPhase::WarmingUp, SensorInput::TimerElapsed) => (
                CycleState { phase: SensorPhase::ReadingClimate, ..self },
                SensorAction::ReadClimate,
            ),
            (SensorPhase::Idle, SensorInput::TimerElapsed) => (
                CycleState { phase: SensorPhase::ReadingClimate, ..self },
                SensorAction::ReadClimate,
            ),
            (
                SensorPhase::ReadingClimate,
                SensorInput::ClimateRead { temperature, humidity },
            ) => self.climate_read(temperature, humidity),
            (SensorPhase::ReadingClimate, SensorInput::ClimateFailed) => self.climate_failed(),
            (SensorPhase::SettingCompensation, SensorInput::CompensationSet) => (
                CycleState {
                    phase: SensorPhase::AwaitingData,
                    co2_window: Seq::empty(),
                    etoh_window: Seq::empty(),
                    pairs: Seq::empty(),
                    ..self
                },
                SensorAction::WaitDataReady,
            ),
            (SensorPhase::SettingCompensation, SensorInput::CompensationFailed) => self.fail(
                SensorFailure::Compensation,
            ),
            (SensorPhase::AwaitingData, SensorInput::DataReady) => (
                CycleState { phase: SensorPhase::ReadingStatus, ..self },
                SensorAction::ReadStatus,
            ),
            (SensorPhase::ReadingStatus, SensorInput::StatusRead) => (
                CycleState { phase: SensorPhase::ReadingEco2, ..self },
                SensorAction::ReadEco2,
            ),
            (SensorPhase::ReadingStatus, SensorInput::StatusFailed) => self.fail(
                SensorFailure::Status,
            ),
            (SensorPhase::ReadingEco2, SensorInput::Eco2Read(value)) => (
                CycleState { phase: SensorPhase::ReadingEthanol, pending_co2: value, ..self },
                SensorAction::ReadEthanol,
            ),
            (SensorPhase::ReadingEco2, SensorInput::Eco2Failed) => self.fail(SensorFailure::Eco2),
            (SensorPhase::ReadingEthanol, SensorInput::EthanolRead(value)) => (
                CycleState { phase: SensorPhase::ReadingAirQuality, pending_etoh: value, ..self },
                SensorAction::ReadAirQuality,
            ),
            (SensorPhase::ReadingEthanol, SensorInput::EthanolFailed) => self.fail(
                SensorFailure::Ethanol,
            ),
            (
                SensorPhase::ReadingAirQuality,
                SensorInput::AirQualityRead(air_quality),
            ) => self.sample_completed(air_quality),
            (SensorPhase::ReadingAirQuality, SensorInput::AirQualityFailed) => self.fail(
                SensorFailure::AirQuality,
            ),
            _ => (self, SensorAction::Unexpected),
        }
    }
}

/// The acquisition state machine.
pub struct SensorCycle {
    phase: SensorPhase,
    prev_temp: i32,
    prev_humidity: i32,
    calibrator: HumidityCalibrator,
    climate: Option<Aht21Readings>,
    co2_median: MedianFilter3,
    etoh_median: MedianFilter3,
    pairs: SampleBuffer,
    pending_co2: u16,
    pending_etoh: u16,
}

impl SensorCycle {
    /// The mathematical state of this machine.
    pub closed spec fn view(&self) -> CycleState {
        CycleState {
            phase: self.phase,
            prev_temp: self.prev_temp,
            prev_humidity: self.prev_humidity,
            calibration: self.calibrator@,
            climate: self.climate,
            co2_window: self.co2_median@,
            etoh_window: self.etoh_median@,
            pairs: self.pairs@,
            pending_co2: self.pending_co2,
            pending_etoh: self.pending_etoh,
        }
    }

    /// The machine is in a state that it can reach from [`Self::new`].
    pub closed spec fn wf(&self) -> bool {
        &&& self@.wf()
        &&& self.co2_median.wf()
        &&& self.etoh_median.wf()
    }

    /// A well-formed machine is in a well-formed state.
    pub proof fn lemma_wf(&self)
        requires
            self.wf(),
        ensures
            self@.wf(),
    {
    }

    /// A machine before initialisation. The first action to perform is
    /// [`SensorAction::Initialize`].
    pub fn new() -> (cycle: Self)
        ensures
            cycle@ == CycleState::initial(),
            cycle.wf(),
    {
        SensorCycle {
            phase: SensorPhase::Initializing,
            prev_temp: DEFAULT_TEMPERATURE,
            prev_humidity: DEFAULT_HUMIDITY,
            calibrator: HumidityCalibrator::new(),
            climate: None,
            co2_median: MedianFilter3::new(),
            etoh_median: MedianFilter3::new(),
            pairs: SampleBuffer::new(),
            pending_co2: 0,
            pending_etoh: 0,
        }
    }

    /// Where the acquisition stands.
    pub fn phase(&self) -> (phase: SensorPhase)
        ensures
            phase == self@.phase,
    {
        self.phase
    }

    /// The calibrator that the machine owns.
    pub fn calibrator(&self) -> (calibrator: &HumidityCalibrator)
        ensures
            calibrator@ == self@.calibration,
            self.wf() ==> calibrator.wf(),
    {
        &self.calibrator
    }

    /// Ends the cycle with a failure.
    fn fail(&mut self, failure: SensorFailure) -> (action: SensorAction)
        requires
            old(self).wf(),
        ensures
            final(self).wf(),
            final(self)@ == old(self)@.fail(failure).0,
            action == old(self)@.fail(failure).1,
    {
        self.phase = SensorPhase::Idle;
        SensorAction::Fail(failure)
    }

    /// Takes in a reading of the climate sensor.
    fn climate_read(&mut self, temperature: i32, humidity: i32) -> (action: SensorAction)
        requires
            old(self).wf(),
            old(self)@.phase == SensorPhase::ReadingClimate,
        ensures
            final(self).wf(),
            final(self)@ == old(self)@.climate_read(temperature, humidity).0,
            action == old(self)@.climate_read(temperature, humidity).1,
    {
        let readings = process_climate_reading(&mut self.calibrator, temperature, humidity);
        self.climate = Some(readings);
        self.prev_temp = readings.raw_temperature;
        self.prev_humidity = readings.calibrated_humidity;
        self.phase = SensorPhase::SettingCompensation;
        SensorAction::SetCompensation {
            temperature: self.prev_temp,
            humidity: humidity_percent(self.prev_humidity),
        }
    }

    /// Goes on without a reading of the climate sensor.
    fn climate_failed(&mut self) -> (action: SensorAction)
        requires
            old(self).wf(),
            old(self)@.phase == SensorPhase::ReadingClimate,
        ensures
            final(self).wf(),
            final(self)@ == old(self)@.climate_failed().0,
            action == old(self)@.climate_failed().1,
    {
        self.climate = None;
        self.phase = SensorPhase::SettingCompensation;
        SensorAction::SetCompensation {
            temperature: self.prev_temp,
            humidity: humidity_percent(self.prev_humidity),
        }
    }

    /// Starts taking samples with fresh filters.
    fn start_sampling(&mut self) -> (action: SensorAction)
        requires
            old(self).wf(),
            old(self)@.phase == SensorPhase::SettingCompensation,
        ensures
            final(self).wf(),
            final(self)@ == old(self)@.step(SensorInput::CompensationSet).0,
            action == old(self)@.step(SensorInput::CompensationSet).1,
    {
        self.co2_median = MedianFilter3::new();
        self.etoh_median = MedianFilter3::new();
        self.pairs = SampleBuffer::new();
        self.phase = SensorPhase::AwaitingData;
        SensorAction::WaitDataReady
    }

    /// Completes a sample with its air quality index.
    fn sample_completed(&mut self, air_quality: AirQualityIndex) -> (action: SensorAction)
        requires
            old(self).wf(),
            old(self)@.phase == SensorPhase::ReadingAirQuality,
        ensures
            final(self).wf(),
            final(self)@ == old(self)@.sample_completed(air_quality).0,
            action == old(self)@.sample_completed(air_quality).1,
    {
        proof {
            self.co2_median.lemma_wf();
            self.etoh_median.lemma_wf();
        }
        self.co2_median.add_value(self.pending_co2 as u32);
        self.etoh_median.add_value(self.pending_etoh as u32);
        let _ = self.pairs.push(self.pending_co2, air_quality);
        assert(self.co2_median@ == old(self)@.co2_window.push(self.pending_co2 as u32));
        assert(self.etoh_median@ == old(self)@.etoh_window.push(self.pending_etoh as u32));
        if self.pairs.len() < ENS160_MEDIAN_READINGS {
            self.phase = SensorPhase::AwaitingData;
            return SensorAction::WaitDataReady;
        }
        self.phase = SensorPhase::Idle;
        match reduce_readings(&self.co2_median, &self.etoh_median, self.pairs.as_slice()) {
            Ok(reading) => {
                match self.climate {
                    Some(climate) => SensorAction::Publish(
                        Event::SensorData {
                            temperature: climate.display_temperature,
                            humidity: climate.calibrated_humidity,
                            co2: reading.co2,
                            etoh: reading.etoh,
                            air_quality: reading.air_quality,
                        },
                    ),
                    None => SensorAction::Fail(SensorFailure::Aht21Read),
                }
            },
            Err(failure) => SensorAction::Fail(failure),
        }
    }

    /// Takes in the outcome of the last action and returns the next action.
    pub fn step(&mut self, input: SensorInput) -> (action: SensorAction)
        requires
            old(self).wf(),
        ensures
            final(self).wf(),
            final(self)@ == old(self)@.step(input).0,
            action == old(self)@.step(input).1,
    {
        match (self.phase, input) {
            (SensorPhase::Initializing, SensorInput::InitSucceeded) => {
                self.phase = SensorPhase::WarmingUp;
                SensorAction::Warmup
            },
            (SensorPhase::Initializing, SensorInput::InitFailed(failure)) => {
                self.phase = SensorPhase::Halted;
                SensorAction::Halt(failure)
            },
            (SensorPhase::WarmingUp, SensorInput::TimerElapsed) => {
                self.phase = SensorPhase::ReadingClimate;
                SensorAction::ReadClimate
            },
            (SensorPhase::Idle, SensorInput::TimerElapsed) => {
                self.phase = SensorPhase::ReadingClimate;
                SensorAction::ReadClimate
            },
            (SensorPhase::ReadingClimate, SensorInput::ClimateRead { temperature, humidity }) => {
                self.climate_read(temperature, humidity)
            },
            (SensorPhase::ReadingClimate, SensorInput::ClimateFailed) => { self.climate_failed() },
            (SensorPhase::SettingCompensation, SensorInput::CompensationSet) => {
                self.start_sampling()
            },
            (SensorPhase::SettingCompensation, SensorInput::CompensationFailed) => {
                self.fail(SensorFailure::Compensation)
            },
            (SensorPhase::AwaitingData, SensorInput::DataReady) => {
                self.phase = SensorPhase::ReadingStatus;
                SensorAction::ReadStatus
            },
            (SensorPhase::ReadingStatus, SensorInput::StatusRead) => {
                self.phase = SensorPhase::ReadingEco2;
                SensorAction::ReadEco2
            },
            (SensorPhase::ReadingStatus, SensorInput::StatusFailed) => {
                self.fail(SensorFailure::Status)
            },
            (SensorPhase::ReadingEco2, SensorInput::Eco2Read(value)) => {
                self.pending_co2 = value;
                self.phase = SensorPhase::ReadingEthanol;
                SensorAction::ReadEthanol
            },
            (SensorPhase::ReadingEco2, SensorInput::Eco2Failed) => {
                self.fail(SensorFailure::Eco2)
            },
            (SensorPhase::ReadingEthanol, SensorInput::EthanolRead(value)) => {
                self.pending_etoh = value;
                self.phase = SensorPhase::ReadingAirQuality;
                SensorAction::ReadAirQuality
            },
            (SensorPhase::ReadingEthanol, SensorInput::EthanolFailed) => {
                self.fail(SensorFailure::Ethanol)
            },
            (SensorPhase::ReadingAirQuality, SensorInput::AirQualityRead(air_quality)) => {
                self.sample_completed(air_quality)
            },
            (SensorPhase::ReadingAirQuality, SensorInput::AirQualityFailed) => {
                self.fail(SensorFailure::AirQuality)
            },
            _ => SensorAction::Unexpected,
        }
    }
}

impl SensorInput {
    /// Whether the input reports that an action failed.
    pub open spec fn is_failure(self) -> bool {
        self is InitFailed || self is ClimateFailed || self is CompensationFailed
            || self is StatusFailed || self is Eco2Failed || self is EthanolFailed
            || self is AirQualityFailed
    }
}

/// Every step leads from a reachable state to a reachable state.
pub proof fn lemma_step_wf(state: CycleState, input: SensorInput)
    requires
        state.wf(),
    ensures
        state.step(input).0.wf(),
{
    match (state.phase, input) {
        (SensorPhase::ReadingClimate, SensorInput::ClimateRead { temperature, humidity }) => {
            crate::humidity_calibrator::lemma_add_measurement_wf(
                state.calibration,
                temperature,
                humidity,
            );
        },
        (SensorPhase::ReadingAirQuality, SensorInput::AirQualityRead(air_quality)) => {
            let after = state.sample_completed(air_quality).0;
            assert forall|i: int| 0 <= i < after.pairs.len() implies #[trigger] after.co2_window[i]
                == after.pairs[i].0 by {
                if i < state.pairs.len() {
                    assert(state.co2_window[i] == state.pairs[i].0);
                }
            }
        },
        _ => {},
    }
}

/// An input that does not answer the pending action changes nothing, and a
/// halted machine stays halted whatever arrives.
pub proof fn lemma_unexpected_changes_nothing(state: CycleState, input: SensorInput)
    ensures
        state.step(input).1 == SensorAction::Unexpected ==> state.step(input).0 == state,
        state.phase == SensorPhase::Halted ==> state.step(input) == (
            state,
            SensorAction::Unexpected,
        ),
{
}

/// Only a failed initialisation is fatal: the machine halts exactly when
/// initialisation fails. Every failure within a cycle ends that cycle with a
/// failure report and leaves the machine idle, from where the timer starts
/// the next cycle; the calibrator and the compensation values survive.
pub proof fn lemma_only_initialisation_failure_is_fatal(state: CycleState, input: SensorInput)
    requires
        state.phase != SensorPhase::Halted,
    ensures
        state.step(input).0.phase == SensorPhase::Halted <==> state.phase
            == SensorPhase::Initializing && input is InitFailed,
        state.step(input).1 is Halt <==> state.phase == SensorPhase::Initializing
            && input is InitFailed,
        state.step(input).1 matches SensorAction::Fail(failure) ==> {
            &&& state.step(input).0.phase == SensorPhase::Idle
            &&& state.step(input).0.calibration == state.calibration
            &&& state.step(input).0.prev_temp == state.prev_temp
            &&& state.step(input).0.prev_humidity == state.prev_humidity
            &&& state.step(input).0.step(SensorInput::TimerElapsed).1 == SensorAction::ReadClimate
        },
        input.is_failure() && !(input is InitFailed) && !(input is ClimateFailed) && state.step(
            input,
        ).1 != SensorAction::Unexpected ==> state.step(input).1 is Fail,
{
}

/// A failed read of the climate sensor is not fatal to the cycle: the
/// air-quality sensor is compensated with the values of the last successful
/// read, which stay as they are.
pub proof fn lemma_climate_failure_keeps_compensation(state: CycleState)
    requires
        state.phase == SensorPhase::ReadingClimate,
    ensures
        state.step(SensorInput::ClimateFailed).1 == (SensorAction::SetCompensation {
            temperature: state.prev_temp,
            humidity: humidity_percent_of(state.prev_humidity as int) as u16,
        }),
        state.step(SensorInput::ClimateFailed).0.prev_temp == state.prev_temp,
        state.step(SensorInput::ClimateFailed).0.prev_humidity == state.prev_humidity,
        state.step(SensorInput::ClimateFailed).0.calibration == state.calibration,
        state.step(SensorInput::ClimateFailed).0.phase == SensorPhase::SettingCompensation,
{
}

/// An event is published only by the air quality index that completes the
/// third sample of a cycle in which the climate sensor was read. The event
/// carries the climate readings of that cycle, the middle one of the three
/// CO2 values, and the air quality index that was read with the first sample
/// whose CO2 value is that middle value.
pub proof fn lemma_publish_completes_cycle(state: CycleState, input: SensorInput)
    requires
        state.wf(),
        state.step(input).1 is Publish,
    ensures
        state.phase == SensorPhase::ReadingAirQuality,
        input is AirQualityRead,
        state.pairs.len() == ENS160_MEDIAN_READINGS - 1,
        state.climate is Some,
        state.step(input).0.phase == SensorPhase::Idle,
        ({
            let pairs = state.step(input).0.pairs;
            let event = state.step(input).1->Publish_0;
            let selected = first_closest(pairs, event->co2 as int);
            &&& pairs.len() == ENS160_MEDIAN_READINGS
            &&& event is SensorData
            &&& event->temperature == state.climate->Some_0.display_temperature
            &&& event->humidity == state.climate->Some_0.calibrated_humidity
            &&& event->co2 == middle_of_three(
                pairs[0].0 as int,
                pairs[1].0 as int,
                pairs[2].0 as int,
            )
            &&& is_median(state.step(input).0.etoh_window, event->etoh as int)
            &&& 0 <= selected < pairs.len()
            &&& pairs[selected].0 == event->co2
            &&& event->air_quality == pairs[selected].1
            &&& forall|j: int| 0 <= j < selected ==> (#[trigger] pairs[j]).0 != event->co2
        }),
{
    let air_quality = input->AirQualityRead_0;
    let after = state.sample_completed(air_quality).0;
    let pairs = after.pairs;
    lemma_step_wf(state, input);
    assert(after.co2_window =~= seq![pairs[0].0 as u32, pairs[1].0 as u32, pairs[2].0 as u32]) by {
        assert(after.co2_window[0] == pairs[0].0);
        assert(after.co2_window[1] == pairs[1].0);
        assert(after.co2_window[2] == pairs[2].0);
    }
    lemma_three_samples_select_median_pair(pairs, after.etoh_window);
    lemma_median_of_odd_exists(after.etoh_window);
    lemma_median_bounded(after.etoh_window, u16::MAX as int, median_of(after.etoh_window));
}

} // verus!
