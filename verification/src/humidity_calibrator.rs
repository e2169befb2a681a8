//! Adaptive humidity calibration.
//!
//! The calibrator turns a noisy, slowly drifting raw relative-humidity signal
//! into a corrected value. It tells three regimes apart: learning an initial
//! baseline, a genuine rapid change of the environment, and slow sensor drift.
//! Slow drift is corrected by two independent offsets, each of which is only
//! ever nudged by a small fraction of the observed deviation.
//!
//! Humidity and temperature are integers in thousandths of %RH and of a
//! degree Celsius. The behaviour of the calibrator is defined by the
//! specification functions of [`CalibrationState`]; the executable
//! [`HumidityCalibrator`] is proved to follow them step by step.

use vstd::prelude::*;
use crate::arith::{abs, abs_i64, clamp, clamp_i64, div_trunc, inc_saturating, sat_inc, trunc_div};
use crate::buffers::{push_evicting, HumidityWindow, HUMIDITY_WINDOW_CAPACITY};

verus! {

/// Number of initial readings averaged into the baseline.
pub const INITIAL_BASELINE_READINGS: usize = 5;

/// The short-term offset moves by one part in this many of the deviation
/// (a learning rate of 0.02).
pub const DRIFT_LEARNING_DIVISOR: i64 = 50;

/// Only drift that exceeds this amount (2 %RH) is corrected.
pub const MIN_DRIFT_THRESHOLD: i64 = 2_000;

/// A change that exceeds this amount (5 %RH) across the recent window is an
/// environmental event, not drift.
pub const RAPID_CHANGE_THRESHOLD: i64 = 5_000;

/// Number of recent readings kept for change detection.
pub const CHANGE_HISTORY_SIZE: usize = 3;

/// Consecutive stable readings after which a rapid-change period ends.
pub const MIN_STABLE_READINGS_AFTER_RAPID_CHANGE: usize = 12;

/// A sustained distance above this amount (8 %RH) from the level before the
/// change indicates a new environmental baseline.
pub const BASELINE_SHIFT_THRESHOLD: i64 = 8_000;

/// Consecutive readings that confirm a baseline shift.
pub const BASELINE_SHIFT_CONFIRMATION_READINGS: usize = 6;

/// Stable readings required before the long-term correction acts.
pub const MIN_READINGS_FOR_LONG_TERM_DRIFT: usize = 100;

/// The long-term correction only acts on deviations of more than this
/// amount (10 %RH) from the expected indoor humidity.
pub const LONG_TERM_DRIFT_THRESHOLD: i64 = 10_000;

/// The long-term offset moves by one part in this many of the deviation
/// (a learning rate of 0.005).
pub const LONG_TERM_DRIFT_LEARNING_DIVISOR: i64 = 200;

/// Expected indoor humidity (45 %RH) at the reference temperature.
pub const BASE_INDOOR_HUMIDITY: i64 = 45_000;

/// Reference temperature (25 degrees Celsius) of the indoor model.
pub const REFERENCE_TEMPERATURE: i64 = 25_000;

/// Lower end (25 %RH) of the plausible indoor range.
pub const MIN_INDOOR_HUMIDITY: i64 = 25_000;

/// Upper end (65 %RH) of the plausible indoor range.
pub const MAX_INDOOR_HUMIDITY: i64 = 65_000;

/// Upper end (100 %RH) of the physical range of a corrected value.
pub const MAX_HUMIDITY: i64 = 100_000;

/// Neither offset ever exceeds this magnitude.
pub const OFFSET_LIMIT: i64 = 0x1_0000_0000;

/// The sum of a sequence of readings.
pub open spec fn readings_sum(readings: Seq<i32>) -> int
    decreases readings.len(),
{
    if readings.len() == 0 {
        0
    } else {
        readings_sum(readings.drop_last()) + readings.last()
    }
}

/// The mean, rounded toward zero, of all readings of a window but the newest.
pub open spec fn mean_of_earlier(window: Seq<i32>) -> int {
    trunc_div(readings_sum(window.drop_last()), window.len() - 1)
}

/// Humidity expected indoors at a temperature: a linear model around 45 %RH
/// at 25 degrees with a slope of one half, limited to the plausible indoor
/// range.
pub open spec fn expected_indoor_humidity(temperature: int) -> int {
    clamp(
        BASE_INDOOR_HUMIDITY + trunc_div(temperature - REFERENCE_TEMPERATURE, 2),
        MIN_INDOOR_HUMIDITY as int,
        MAX_INDOOR_HUMIDITY as int,
    )
}

/// An offset moved one learning step toward cancelling `deviation`: it gives
/// up the `divisor`-th part (rounded toward zero) of its distance from
/// `-deviation`.
pub open spec fn nudge(offset: int, deviation: int, divisor: int) -> int {
    offset - trunc_div(offset + deviation, divisor)
}

/// A reading-sequence number one step further, sticking at the largest `u32`.
pub open spec fn next_sequence(sequence: int) -> int {
    if sequence < u32::MAX {
        sequence + 1
    } else {
        sequence
    }
}

/// Whether `x` is the value of some `i32`.
pub open spec fn in_reading_range(x: int) -> bool {
    i32::MIN <= x <= i32::MAX
}

/// The mathematical state of the calibrator.
pub struct CalibrationState {
    /// The most recent raw readings, oldest first; at most three.
    pub recent_readings: Seq<i32>,
    /// Short-term drift offset.
    pub humidity_offset: int,
    /// Current environmental baseline, absent until established.
    pub current_baseline: Option<int>,
    /// Number of readings that went into the current baseline.
    pub baseline_reading_count: int,
    /// Number of readings seen.
    pub reading_sequence: int,
    /// Number of consecutive stable readings.
    pub stable_reading_count: int,
    /// Whether a rapid-change period is under way.
    pub in_rapid_change_period: bool,
    /// Level before the current rapid-change period.
    pub pre_change_baseline: Option<int>,
    /// Number of consecutive readings far from the pre-change level.
    pub baseline_confirmation_count: int,
    /// Whether a sustained baseline shift has been confirmed.
    pub baseline_shifted: bool,
    /// Long-term statistical offset.
    pub long_term_statistical_offset: int,
    /// Number of stable readings accumulated for the long-term correction.
    pub long_term_stable_count: int,
}

impl CalibrationState {
    /// The state of a calibrator that has seen no reading.
    pub open spec fn initial() -> Self {
        CalibrationState {
            recent_readings: Seq::empty(),
            humidity_offset: 0,
            current_baseline: None,
            baseline_reading_count: 0,
            reading_sequence: 0,
            stable_reading_count: 0,
            in_rapid_change_period: false,
            pre_change_baseline: None,
            baseline_confirmation_count: 0,
            baseline_shifted: false,
            long_term_statistical_offset: 0,
            long_term_stable_count: 0,
        }
    }

    /// Every quantity is within the range its machine representation holds.
    pub open spec fn bounded(self) -> bool {
        &&& self.recent_readings.len() <= CHANGE_HISTORY_SIZE
        &&& abs(self.humidity_offset) <= OFFSET_LIMIT
        &&& abs(self.long_term_statistical_offset) <= OFFSET_LIMIT
        &&& self.current_baseline matches Some(b) ==> in_reading_range(b)
        &&& self.pre_change_baseline matches Some(b) ==> in_reading_range(b)
        &&& 0 <= self.baseline_reading_count <= INITIAL_BASELINE_READINGS
        &&& 0 <= self.reading_sequence <= u32::MAX
        &&& 0 <= self.stable_reading_count <= usize::MAX
        &&& 0 <= self.baseline_confirmation_count <= usize::MAX
        &&& 0 <= self.long_term_stable_count <= usize::MAX
    }

    /// The flags and counters agree with each other: a baseline exists
    /// exactly when readings went into it, a pre-change level is stored
    /// exactly during a rapid-change period, and during such a period no
    /// baseline stands and the window holds the readings that opened it.
    pub open spec fn consistent(self) -> bool {
        &&& self.current_baseline is None <==> self.baseline_reading_count == 0
        &&& self.in_rapid_change_period <==> self.pre_change_baseline is Some
        &&& self.in_rapid_change_period ==> self.baseline_reading_count == 0
            && self.recent_readings.len() >= 2
    }

    /// The state is one that a calibrator can reach.
    pub open spec fn wf(self) -> bool {
        self.bounded() && self.consistent()
    }

    /// Whether the baseline has been established.
    pub open spec fn is_calibrated(self) -> bool {
        self.baseline_reading_count >= INITIAL_BASELINE_READINGS
    }

    /// The recent window after `raw` arrives.
    pub open spec fn window_with(self, raw: i32) -> Seq<i32> {
        push_evicting(self.recent_readings, CHANGE_HISTORY_SIZE as int, raw)
    }

    /// Change from the oldest reading of the window to the newest, `raw`;
    /// zero while the window holds fewer than two readings.
    pub open spec fn total_change(self, raw: i32) -> int {
        if self.window_with(raw).len() < 2 {
            0
        } else {
            raw - self.window_with(raw)[0]
        }
    }

    /// Whether `raw` completes a rapid change: the window holds at least two
    /// readings and its newest and oldest differ by more than the threshold.
    pub open spec fn is_rapid_change(self, raw: i32) -> bool {
        self.window_with(raw).len() >= 2 && abs(self.total_change(raw)) > RAPID_CHANGE_THRESHOLD
    }

    /// The state after `raw` has been examined for a rapid change or a
    /// baseline shift.
    ///
    /// A rapid change opens (or prolongs) a rapid-change period, remembers
    /// the level before it and restarts the stability counters. Any other
    /// reading counts as stable; during a period it is compared with the
    /// remembered level: a distance above the shift threshold counts toward
    /// confirming a baseline shift, any other restarts that count. Once
    /// enough stable readings have passed the period ends with `raw` as the
    /// new baseline and the short-term offset back at zero.
    pub open spec fn detect_rapid_change(self, raw: i32) -> Self {
        let window = self.window_with(raw);
        let seen = CalibrationState {
            recent_readings: window,
            reading_sequence: next_sequence(self.reading_sequence),
            ..self
        };
        if window.len() < 2 {
            CalibrationState { stable_reading_count: 0, baseline_confirmation_count: 0, ..seen }
        } else if self.is_rapid_change(raw) {
            CalibrationState {
                pre_change_baseline: if self.pre_change_baseline is None
                    && !self.in_rapid_change_period {
                    Some(mean_of_earlier(window))
                } else {
                    self.pre_change_baseline
                },
                stable_reading_count: 0,
                baseline_confirmation_count: 0,
                in_rapid_change_period: true,
                baseline_shifted: false,
                ..seen
            }
        } else {
            let stable = sat_inc(self.stable_reading_count);
            match self.pre_change_baseline {
                Some(level) => {
                    let far = abs(raw - level) > BASELINE_SHIFT_THRESHOLD;
                    let confirmations = if far {
                        sat_inc(self.baseline_confirmation_count)
                    } else {
                        0
                    };
                    if stable >= MIN_STABLE_READINGS_AFTER_RAPID_CHANGE {
                        CalibrationState {
                            stable_reading_count: stable,
                            baseline_confirmation_count: 0,
                            in_rapid_change_period: false,
                            current_baseline: Some(raw as int),
                            baseline_reading_count: INITIAL_BASELINE_READINGS as int,
                            pre_change_baseline: None,
                            baseline_shifted: false,
                            humidity_offset: 0,
                            ..seen
                        }
                    } else {
                        CalibrationState {
                            stable_reading_count: stable,
                            baseline_confirmation_count: confirmations,
                            baseline_shifted: self.baseline_shifted || (far && confirmations
                                >= BASELINE_SHIFT_CONFIRMATION_READINGS),
                            ..seen
                        }
                    }
                },
                None => CalibrationState {
                    stable_reading_count: stable,
                    in_rapid_change_period: self.in_rapid_change_period && stable
                        < MIN_STABLE_READINGS_AFTER_RAPID_CHANGE,
                    ..seen
                },
            }
        }
    }

    /// The state with the baseline forgotten, as a rapid change demands.
    /// Both offsets rest as they are.
    pub open spec fn reset_for_rapid_change(self) -> Self {
        CalibrationState { current_baseline: None, baseline_reading_count: 0, ..self }
    }

    /// The state after `raw` has been examined and, if it completed a rapid
    /// change, the baseline has been forgotten.
    pub open spec fn handle_rapid_change(self, raw: i32) -> Self {
        if self.is_rapid_change(raw) {
            self.detect_rapid_change(raw).reset_for_rapid_change()
        } else {
            self.detect_rapid_change(raw)
        }
    }

    /// Whether learning is suspended after `raw`: it completed a rapid change
    /// or a rapid-change period is still under way.
    pub open spec fn suspends_learning(self, raw: i32) -> bool {
        self.is_rapid_change(raw) || self.detect_rapid_change(raw).in_rapid_change_period
    }

    /// The state with `raw` averaged into a baseline that is still being
    /// established: the baseline becomes the running mean, rounded toward
    /// zero, of the readings counted so far.
    pub open spec fn establish_baseline(self, raw: i32) -> Self {
        CalibrationState {
            current_baseline: match self.current_baseline {
                None => Some(raw as int),
                Some(b) => Some(
                    trunc_div(
                        b * self.baseline_reading_count + raw,
                        self.baseline_reading_count + 1,
                    ),
                ),
            },
            baseline_reading_count: self.baseline_reading_count + 1,
            ..self
        }
    }

    /// The state with the run of stable readings extended if `drift` is
    /// below the rapid-change threshold outside a rapid-change period, and
    /// restarted otherwise.
    pub open spec fn track_long_term_stability(self, drift: int) -> Self {
        CalibrationState {
            long_term_stable_count: if !self.in_rapid_change_period && abs(drift)
                < RAPID_CHANGE_THRESHOLD {
                sat_inc(self.long_term_stable_count)
            } else {
                0
            },
            ..self
        }
    }

    /// Whether the long-term correction acts on `raw` at `temperature`: the
    /// run of stable readings is long enough and the reading is more than
    /// the long-term threshold away from the expected indoor humidity.
    pub open spec fn long_term_correction_due(self, temperature: i32, raw: i32) -> bool {
        self.long_term_stable_count >= MIN_READINGS_FOR_LONG_TERM_DRIFT && abs(
            raw - expected_indoor_humidity(temperature as int),
        ) > LONG_TERM_DRIFT_THRESHOLD
    }

    /// The state after the long-term correction: where it is due, the
    /// long-term offset is nudged toward cancelling the deviation from the
    /// expected indoor humidity.
    pub open spec fn correct_long_term_drift(self, temperature: i32, raw: i32) -> Self {
        if self.long_term_correction_due(temperature, raw) {
            CalibrationState {
                long_term_statistical_offset: nudge(
                    self.long_term_statistical_offset,
                    raw - expected_indoor_humidity(temperature as int),
                    LONG_TERM_DRIFT_LEARNING_DIVISOR as int,
                ),
                ..self
            }
        } else {
            self
        }
    }

    /// The state after the short-term correction: where `raw` has drifted
    /// from `baseline` by more than the minimum, the short-term offset is
    /// nudged toward cancelling the drift; otherwise it rests.
    pub open spec fn correct_baseline_drift(self, baseline: int, raw: i32) -> Self {
        if abs(raw - baseline) > MIN_DRIFT_THRESHOLD {
            CalibrationState {
                humidity_offset: nudge(
                    self.humidity_offset,
                    raw - baseline,
                    DRIFT_LEARNING_DIVISOR as int,
                ),
                ..self
            }
        } else {
            self
        }
    }

    /// The state after both corrections against an established `baseline`.
    pub open spec fn correct_drift(self, temperature: i32, raw: i32, baseline: int) -> Self {
        self.track_long_term_stability(raw - baseline).correct_long_term_drift(
            temperature,
            raw,
        ).correct_baseline_drift(baseline, raw)
    }

    /// The state after one measurement.
    ///
    /// The reading is first examined for a rapid change; while learning is
    /// suspended nothing else happens. Otherwise the reading either goes into
    /// a baseline that is still being established, or, once the baseline
    /// stands, drives the two drift corrections.
    pub open spec fn add_measurement(self, temperature: i32, raw: i32) -> Self {
        let examined = self.handle_rapid_change(raw);
        if self.suspends_learning(raw) {
            examined
        } else if !examined.is_calibrated() {
            examined.establish_baseline(raw)
        } else {
            match examined.current_baseline {
                Some(baseline) => examined.correct_drift(temperature, raw, baseline),
                None => examined,
            }
        }
    }

    /// The corrected value of `raw`: the raw value itself until the baseline
    /// is established, afterwards the raw value plus both offsets, limited to
    /// the physical range from 0 to 100 %RH.
    pub open spec fn calibrate(self, raw: i32) -> int {
        if !self.is_calibrated() {
            raw as int
        } else {
            clamp(
                raw + self.humidity_offset + self.long_term_statistical_offset,
                0,
                MAX_HUMIDITY as int,
            )
        }
    }
}

/// A nudged offset lies between the old offset and the value that cancels the
/// deviation, so it is bounded by whichever of the two is larger.
pub proof fn lemma_nudge_between(offset: int, deviation: int, divisor: int)
    requires
        divisor > 0,
    ensures
        offset <= -deviation ==> offset <= nudge(offset, deviation, divisor) <= -deviation,
        offset >= -deviation ==> -deviation <= nudge(offset, deviation, divisor) <= offset,
        abs(nudge(offset, deviation, divisor)) <= if abs(offset) >= abs(deviation) {
            abs(offset)
        } else {
            abs(deviation)
        },
{
    crate::arith::lemma_trunc_div_bounds(offset + deviation, divisor);
}

/// The sum of `n` readings is within `n` times the range of one reading.
pub proof fn lemma_readings_sum_bounds(readings: Seq<i32>)
    ensures
        readings.len() * (i32::MIN as int) <= readings_sum(readings) <= readings.len() * (
        i32::MAX as int),
    decreases readings.len(),
{
    if readings.len() > 0 {
        lemma_readings_sum_bounds(readings.drop_last());
        assert((readings.len() - 1) * (i32::MIN as int) + (i32::MIN as int) == readings.len() * (
        i32::MIN as int)) by (nonlinear_arith);
        assert((readings.len() - 1) * (i32::MAX as int) + (i32::MAX as int) == readings.len() * (
        i32::MAX as int)) by (nonlinear_arith);
    }
}

/// The mean of readings is itself within the range of a reading.
pub proof fn lemma_mean_in_range(total: int, count: int)
    requires
        count > 0,
        count * (i32::MIN as int) <= total <= count * (i32::MAX as int),
    ensures
        in_reading_range(trunc_div(total, count)),
{
    crate::arith::lemma_trunc_div_bounds(total, count);
    let q = abs(trunc_div(total, count));
    assert(q <= 0x8000_0000) by (nonlinear_arith)
        requires
            q >= 0,
            count > 0,
            q * count <= abs(total),
            abs(total) <= count * 0x8000_0000,
    ;
    if total >= 0 {
        assert(q <= 0x7fff_ffff) by (nonlinear_arith)
            requires
                q >= 0,
                count > 0,
                q * count <= total,
                total <= count * 0x7fff_ffff,
        ;
    }
}

/// The calibrator: the executable counterpart of [`CalibrationState`].
pub struct HumidityCalibrator {
    recent_readings: HumidityWindow,
    humidity_offset: i64,
    current_baseline: Option<i64>,
    baseline_reading_count: usize,
    reading_sequence: u32,
    stable_reading_count: usize,
    in_rapid_change_period: bool,
    pre_change_baseline: Option<i64>,
    baseline_confirmation_count: usize,
    baseline_shifted: bool,
    long_term_statistical_offset: i64,
    long_term_stable_count: usize,
}

/// An optional machine integer as an optional mathematical one.
pub open spec fn option_int(value: Option<i64>) -> Option<int> {
    match value {
        Some(v) => Some(v as int),
        None => None,
    }
}

/// Mean, rounded toward zero, of all readings of the window but the newest.
fn window_mean_of_earlier(window: &HumidityWindow) -> (mean: i64)
    requires
        2 <= window@.len() <= HUMIDITY_WINDOW_CAPACITY,
    ensures
        mean == mean_of_earlier(window@),
        in_reading_range(mean as int),
{
    let readings = window.as_slice();
    let count: usize = readings.len() - 1;
    let mut sum: i64 = 0;
    let mut i: usize = 0;
    while i < count
        invariant
            i <= count,
            count == readings@.len() - 1,
            count <= 2,
            sum == readings_sum(readings@.take(i as int)),
            i * (i32::MIN as int) <= sum <= i * (i32::MAX as int),
        decreases count - i,
    {
        proof {
            assert(readings@.take(i + 1).drop_last() == readings@.take(i as int));
        }
        sum = sum + readings[i] as i64;
        i = i + 1;
    }
    proof {
        assert(readings@.take(count as int) == readings@.drop_last());
        lemma_mean_in_range(sum as int, count as int);
    }
    div_trunc(sum, count as i64)
}

impl HumidityCalibrator {
    /// The mathematical state of this calibrator.
    pub closed spec fn view(&self) -> CalibrationState {
        CalibrationState {
            recent_readings: self.recent_readings@,
            humidity_offset: self.humidity_offset as int,
            current_baseline: option_int(self.current_baseline),
            baseline_reading_count: self.baseline_reading_count as int,
            reading_sequence: self.reading_sequence as int,
            stable_reading_count: self.stable_reading_count as int,
            in_rapid_change_period: self.in_rapid_change_period,
            pre_change_baseline: option_int(self.pre_change_baseline),
            baseline_confirmation_count: self.baseline_confirmation_count as int,
            baseline_shifted: self.baseline_shifted,
            long_term_statistical_offset: self.long_term_statistical_offset as int,
            long_term_stable_count: self.long_term_stable_count as int,
        }
    }

    /// The calibrator is in a state that it can reach from [`Self::new`].
    pub open spec fn wf(&self) -> bool {
        self@.wf()
    }

    /// A calibrator that has seen no reading.
    pub fn new() -> (calibrator: Self)
        ensures
            calibrator@ == CalibrationState::initial(),
            calibrator.wf(),
    {
        HumidityCalibrator {
            recent_readings: HumidityWindow::new(),
            humidity_offset: 0,
            current_baseline: None,
            baseline_reading_count: 0,
            reading_sequence: 0,
            stable_reading_count: 0,
            in_rapid_change_period: false,
            pre_change_baseline: None,
            baseline_confirmation_count: 0,
            baseline_shifted: false,
            long_term_statistical_offset: 0,
            long_term_stable_count: 0,
        }
    }

    /// Humidity expected indoors at `temperature`.
    pub fn expected_indoor_humidity(temperature: i32) -> (expected: i32)
        ensures
            expected == expected_indoor_humidity(temperature as int),
            MIN_INDOOR_HUMIDITY <= expected <= MAX_INDOOR_HUMIDITY,
    {
        let above_reference: i64 = temperature as i64 - REFERENCE_TEMPERATURE;
        let expected: i64 = BASE_INDOOR_HUMIDITY + div_trunc(above_reference, 2);
        clamp_i64(expected, MIN_INDOOR_HUMIDITY, MAX_INDOOR_HUMIDITY) as i32
    }

    /// Examines `raw_humidity` for a rapid change or a baseline shift.
    /// Returns whether it completed a rapid change, and the change across
    /// the recent window.
    fn detect_rapid_change(&mut self, raw_humidity: i32) -> (result: (bool, i64))
        requires
            old(self)@.bounded(),
        ensures
            final(self)@ == old(self)@.detect_rapid_change(raw_humidity),
            final(self)@.bounded(),
            result.0 == old(self)@.is_rapid_change(raw_humidity),
            result.1 == old(self)@.total_change(raw_humidity),
    {
        if self.reading_sequence < u32::MAX {
            self.reading_sequence = self.reading_sequence + 1;
        }
        self.recent_readings.push_evicting(raw_humidity);

        if self.recent_readings.len() < 2 {
            self.stable_reading_count = 0;
            self.baseline_confirmation_count = 0;
            return (false, 0);
        }
        let oldest_reading: i32 = self.recent_readings.as_slice()[0];
        let total_change: i64 = raw_humidity as i64 - oldest_reading as i64;
        let is_rapid_change = abs_i64(total_change) > RAPID_CHANGE_THRESHOLD;

        if is_rapid_change {
            if self.pre_change_baseline.is_none() && !self.in_rapid_change_period {
                let baseline = window_mean_of_earlier(&self.recent_readings);
                self.pre_change_baseline = Some(baseline);
            }
            self.stable_reading_count = 0;
            self.baseline_confirmation_count = 0;
            self.in_rapid_change_period = true;
            self.baseline_shifted = false;
        } else {
            self.stable_reading_count = inc_saturating(self.stable_reading_count);
            match self.pre_change_baseline {
                Some(level) => {
                    let change_from_baseline: i64 = raw_humidity as i64 - level;
                    if abs_i64(change_from_baseline) > BASELINE_SHIFT_THRESHOLD {
                        self.baseline_confirmation_count = inc_saturating(
                            self.baseline_confirmation_count,
                        );
                        if self.baseline_confirmation_count
                            >= BASELINE_SHIFT_CONFIRMATION_READINGS {
                            self.baseline_shifted = true;
                        }
                    } else {
                        self.baseline_confirmation_count = 0;
                    }
                    if self.stable_reading_count >= MIN_STABLE_READINGS_AFTER_RAPID_CHANGE {
                        self.in_rapid_change_period = false;
                        self.current_baseline = Some(raw_humidity as i64);
                        self.baseline_reading_count = INITIAL_BASELINE_READINGS;
                        self.pre_change_baseline = None;
                        self.baseline_confirmation_count = 0;
                        self.baseline_shifted = false;
                        self.humidity_offset = 0;
                    }
                },
                None => {
                    if self.stable_reading_count >= MIN_STABLE_READINGS_AFTER_RAPID_CHANGE {
                        self.in_rapid_change_period = false;
                    }
                },
            }
        }
        (is_rapid_change, total_change)
    }

    /// Forgets the baseline.
    fn reset_calibration_for_rapid_change(&mut self)
        ensures
            final(self)@ == old(self)@.reset_for_rapid_change(),
    {
        self.current_baseline = None;
        self.baseline_reading_count = 0;
    }

    /// Examines `raw_humidity` and reacts to a rapid change. Returns whether
    /// learning is suspended for this reading.
    fn handle_rapid_change(&mut self, raw_humidity: i32) -> (suspended: bool)
        requires
            old(self)@.bounded(),
        ensures
            final(self)@ == old(self)@.handle_rapid_change(raw_humidity),
            final(self)@.bounded(),
            suspended == old(self)@.suspends_learning(raw_humidity),
    {
        let (is_rapid_change, _change_magnitude) = self.detect_rapid_change(raw_humidity);
        if is_rapid_change {
            self.reset_calibration_for_rapid_change();
            return true;
        }
        self.in_rapid_change_period
    }

    /// Averages `raw_humidity` into a baseline that is still being
    /// established. Returns whether it did so.
    fn update_baseline_establishment(&mut self, raw_humidity: i32) -> (establishing: bool)
        requires
            old(self)@.bounded(),
            old(self)@.current_baseline is None ==> old(self)@.baseline_reading_count == 0,
        ensures
            establishing == !old(self)@.is_calibrated(),
            establishing ==> final(self)@ == old(self)@.establish_baseline(raw_humidity),
            !establishing ==> final(self)@ == old(self)@,
            final(self)@.bounded(),
    {
        if self.baseline_reading_count >= INITIAL_BASELINE_READINGS {
            return false;
        }
        match self.current_baseline {
            None => {
                self.current_baseline = Some(raw_humidity as i64);
            },
            Some(current_baseline) => {
                let count: i64 = self.baseline_reading_count as i64;
                proof {
                    let total = current_baseline * count + raw_humidity;
                    assert((count + 1) * (i32::MIN as int) <= total <= (count + 1) * (
                    i32::MAX as int)) by (nonlinear_arith)
                        requires
                            0 <= count <= 4,
                            i32::MIN <= current_baseline <= i32::MAX,
                            i32::MIN <= raw_humidity <= i32::MAX,
                            total == current_baseline * count + raw_humidity,
                    ;
                    lemma_mean_in_range(total, count + 1);
                }
                let total: i64 = current_baseline * count + raw_humidity as i64;
                self.current_baseline = Some(div_trunc(total, count + 1));
            },
        }
        self.baseline_reading_count = self.baseline_reading_count + 1;
        true
    }

    /// Extends the run of stable readings if `drift` is below the
    /// rapid-change threshold outside a rapid-change period, and restarts it
    /// otherwise.
    pub fn update_long_term_stability(&mut self, drift: i64)
        ensures
            final(self)@ == old(self)@.track_long_term_stability(drift as int),
            old(self).wf() ==> final(self).wf(),
    {
        if !self.in_rapid_change_period && -RAPID_CHANGE_THRESHOLD < drift && drift
            < RAPID_CHANGE_THRESHOLD {
            self.long_term_stable_count = inc_saturating(self.long_term_stable_count);
        } else {
            self.long_term_stable_count = 0;
        }
    }

    /// Applies the long-term statistical drift correction: once the run of
    /// stable readings is long enough, a reading that lies more than the
    /// long-term threshold away from the expected indoor humidity nudges the
    /// long-term offset one learning step toward cancelling that deviation.
    /// Nothing else changes.
    pub fn apply_long_term_drift_correction(&mut self, temperature: i32, raw_humidity: i32)
        requires
            old(self)@.bounded(),
        ensures
            final(self)@ == old(self)@.correct_long_term_drift(temperature, raw_humidity),
            final(self)@.bounded(),
            old(self).wf() ==> final(self).wf(),
    {
        if self.long_term_stable_count < MIN_READINGS_FOR_LONG_TERM_DRIFT {
            return ;
        }
        let expected = Self::expected_indoor_humidity(temperature);
        let statistical_error: i64 = raw_humidity as i64 - expected as i64;
        if abs_i64(statistical_error) > LONG_TERM_DRIFT_THRESHOLD {
            proof {
                lemma_nudge_between(
                    self.long_term_statistical_offset as int,
                    statistical_error as int,
                    LONG_TERM_DRIFT_LEARNING_DIVISOR as int,
                );
            }
            self.long_term_statistical_offset = self.long_term_statistical_offset - div_trunc(
                self.long_term_statistical_offset + statistical_error,
                LONG_TERM_DRIFT_LEARNING_DIVISOR,
            );
        }
    }

    /// Applies the short-term baseline drift correction: a reading that has
    /// drifted from `baseline` by more than the minimum nudges the
    /// short-term offset one learning step toward cancelling the drift.
    /// Nothing else changes.
    pub fn apply_baseline_drift_correction(&mut self, baseline: i32, raw_humidity: i32)
        requires
            old(self)@.bounded(),
        ensures
            final(self)@ == old(self)@.correct_baseline_drift(baseline as int, raw_humidity),
            final(self)@.bounded(),
            old(self).wf() ==> final(self).wf(),
    {
        let drift: i64 = raw_humidity as i64 - baseline as i64;
        if abs_i64(drift) > MIN_DRIFT_THRESHOLD {
            proof {
                lemma_nudge_between(
                    self.humidity_offset as int,
                    drift as int,
                    DRIFT_LEARNING_DIVISOR as int,
                );
            }
            self.humidity_offset = self.humidity_offset - div_trunc(
                self.humidity_offset + drift,
                DRIFT_LEARNING_DIVISOR,
            );
        }
    }

    /// Takes in one measurement: learns from it unless a rapid change
    /// suspends learning.
    pub fn add_measurement(&mut self, temperature: i32, raw_humidity: i32)
        requires
            old(self).wf(),
        ensures
            final(self).wf(),
            final(self)@ == old(self)@.add_measurement(temperature, raw_humidity),
    {
        proof {
            lemma_add_measurement_wf(self@, temperature, raw_humidity);
        }
        if self.handle_rapid_change(raw_humidity) {
            return ;
        }
        if self.update_baseline_establishment(raw_humidity) {
            return ;
        }
        if let Some(baseline) = self.current_baseline {
            let drift: i64 = raw_humidity as i64 - baseline;
            self.update_long_term_stability(drift);
            self.apply_long_term_drift_correction(temperature, raw_humidity);
            self.apply_baseline_drift_correction(baseline as i32, raw_humidity);
        }
    }

    /// The corrected value of `raw_humidity`. The temperature plays no part
    /// in the correction itself.
    pub fn calibrate_humidity(&self, _temperature: i32, raw_humidity: i32) -> (calibrated: i32)
        requires
            self.wf(),
        ensures
            calibrated == self@.calibrate(raw_humidity),
            !self@.is_calibrated() ==> calibrated == raw_humidity,
            self@.is_calibrated() ==> 0 <= calibrated <= MAX_HUMIDITY,
    {
        if self.baseline_reading_count < INITIAL_BASELINE_READINGS {
            return raw_humidity;
        }
        let baseline_corrected: i64 = raw_humidity as i64 + self.humidity_offset;
        let fully_corrected: i64 = baseline_corrected + self.long_term_statistical_offset;
        clamp_i64(fully_corrected, 0, MAX_HUMIDITY) as i32
    }

    /// Calibration status: whether the baseline is established, the
    /// short-term offset, the long-term offset, the number of readings in
    /// the baseline, whether a rapid-change period is under way, and the
    /// length of the run of stable readings.
    pub fn get_calibration_info(&self) -> (info: (bool, i64, i64, usize, bool, usize))
        ensures
            info.0 == self@.is_calibrated(),
            info.1 == self@.humidity_offset,
            info.2 == self@.long_term_statistical_offset,
            info.3 == self@.baseline_reading_count,
            info.4 == self@.in_rapid_change_period,
            info.5 == self@.long_term_stable_count,
    {
        let is_calibrated = self.baseline_reading_count >= INITIAL_BASELINE_READINGS;
        (
            is_calibrated,
            self.humidity_offset,
            self.long_term_statistical_offset,
            self.baseline_reading_count,
            self.in_rapid_change_period,
            self.long_term_stable_count,
        )
    }

    /// Number of readings that went into the current baseline.
    pub fn baseline_reading_count(&self) -> (count: usize)
        ensures
            count == self@.baseline_reading_count,
    {
        self.baseline_reading_count
    }

    /// Whether a sustained baseline shift has been confirmed.
    pub fn baseline_shifted(&self) -> (shifted: bool)
        ensures
            shifted == self@.baseline_shifted,
    {
        self.baseline_shifted
    }
}

/// Every measurement leads from a reachable state to a reachable state.
pub proof fn lemma_add_measurement_wf(state: CalibrationState, temperature: i32, raw: i32)
    requires
        state.wf(),
    ensures
        state.add_measurement(temperature, raw).wf(),
{
    let window = state.window_with(raw);
    if window.len() >= 2 {
        lemma_readings_sum_bounds(window.drop_last());
        lemma_mean_in_range(readings_sum(window.drop_last()), window.len() - 1);
    }
    let examined = state.handle_rapid_change(raw);
    assert(examined.wf());
    if !state.suspends_learning(raw) {
        if !examined.is_calibrated() {
            match examined.current_baseline {
                Some(b) => {
                    let count = examined.baseline_reading_count;
                    let total = b * count + raw;
                    assert((count + 1) * (i32::MIN as int) <= total <= (count + 1) * (
                    i32::MAX as int)) by (nonlinear_arith)
                        requires
                            0 <= count <= 4,
                            i32::MIN <= b <= i32::MAX,
                            i32::MIN <= raw <= i32::MAX,
                            total == b * count + raw,
                    ;
                    lemma_mean_in_range(total, count + 1);
                },
                None => {},
            }
        } else {
            match examined.current_baseline {
                Some(baseline) => {
                    let steadied = examined.track_long_term_stability(raw - baseline);
                    lemma_nudge_between(
                        steadied.long_term_statistical_offset,
                        raw - expected_indoor_humidity(temperature as int),
                        LONG_TERM_DRIFT_LEARNING_DIVISOR as int,
                    );
                    let long = steadied.correct_long_term_drift(temperature, raw);
                    lemma_nudge_between(
                        long.humidity_offset,
                        raw - baseline,
                        DRIFT_LEARNING_DIVISOR as int,
                    );
                },
                None => {},
            }
        }
    }
}

/// The state after a run of measurements, each a pair of a temperature and a
/// raw humidity, taken in order.
pub open spec fn after_measurements(
    state: CalibrationState,
    samples: Seq<(i32, i32)>,
) -> CalibrationState
    decreases samples.len(),
{
    if samples.len() == 0 {
        state
    } else {
        after_measurements(state, samples.drop_last()).add_measurement(
            samples.last().0,
            samples.last().1,
        )
    }
}

/// The state after the same measurement has been taken `steps` times.
pub open spec fn after_repeated(
    state: CalibrationState,
    temperature: i32,
    raw: i32,
    steps: nat,
) -> CalibrationState
    decreases steps,
{
    if steps == 0 {
        state
    } else {
        after_repeated(state, temperature, raw, (steps - 1) as nat).add_measurement(
            temperature,
            raw,
        )
    }
}

/// A distance after `steps` learning steps, each of which takes away its
/// `divisor`-th part, rounded down.
pub open spec fn decayed(distance: int, divisor: int, steps: nat) -> int
    decreases steps,
{
    if steps == 0 {
        distance
    } else {
        decayed(distance, divisor, (steps - 1) as nat) - decayed(
            distance,
            divisor,
            (steps - 1) as nat,
        ) / divisor
    }
}

/// Any run of measurements leads from a reachable state to a reachable state.
pub proof fn lemma_after_measurements_wf(state: CalibrationState, samples: Seq<(i32, i32)>)
    requires
        state.wf(),
    ensures
        after_measurements(state, samples).wf(),
    decreases samples.len(),
{
    if samples.len() > 0 {
        lemma_after_measurements_wf(state, samples.drop_last());
        lemma_add_measurement_wf(
            after_measurements(state, samples.drop_last()),
            samples.last().0,
            samples.last().1,
        );
    }
}

/// While a new calibrator takes in its first five readings, whatever they
/// are, it corrects nothing: both offsets are still zero, so a raw value in
/// the physical range comes back unchanged, and before the fifth reading any
/// raw value does.
pub proof fn lemma_initial_readings_uncorrected(samples: Seq<(i32, i32)>, raw: i32)
    requires
        samples.len() <= INITIAL_BASELINE_READINGS,
    ensures
        after_measurements(CalibrationState::initial(), samples).humidity_offset == 0,
        after_measurements(CalibrationState::initial(), samples).long_term_statistical_offset == 0,
        0 <= raw <= MAX_HUMIDITY ==> after_measurements(
            CalibrationState::initial(),
            samples,
        ).calibrate(raw) == raw,
        samples.len() < INITIAL_BASELINE_READINGS ==> after_measurements(
            CalibrationState::initial(),
            samples,
        ).calibrate(raw) == raw,
{
    lemma_initial_readings_learn_nothing(samples);
}

/// During the first five readings of a new calibrator neither offset moves,
/// and the counters cannot outrun the number of readings.
proof fn lemma_initial_readings_learn_nothing(samples: Seq<(i32, i32)>)
    requires
        samples.len() <= INITIAL_BASELINE_READINGS,
    ensures
        after_measurements(CalibrationState::initial(), samples).wf(),
        after_measurements(CalibrationState::initial(), samples).humidity_offset == 0,
        after_measurements(CalibrationState::initial(), samples).long_term_statistical_offset == 0,
        after_measurements(CalibrationState::initial(), samples).baseline_reading_count
            <= samples.len(),
        after_measurements(CalibrationState::initial(), samples).stable_reading_count
            <= samples.len(),
    decreases samples.len(),
{
    if samples.len() > 0 {
        let before = after_measurements(CalibrationState::initial(), samples.drop_last());
        lemma_initial_readings_learn_nothing(samples.drop_last());
        lemma_add_measurement_wf(before, samples.last().0, samples.last().1);
    }
}

/// A rise of more than the rapid-change threshold from one reading to the
/// next, in a window that has not been falling, is flagged by the very sample
/// that completes it: the calibrator is then in a rapid-change period with
/// its baseline forgotten, both offsets and the run of stable readings
/// untouched, and it hands raw values back uncorrected.
pub proof fn lemma_rapid_rise_is_flagged(state: CalibrationState, temperature: i32, raw: i32)
    requires
        state.wf(),
        state.recent_readings.len() >= 1,
        forall|i: int, j: int|
            0 <= i <= j < state.recent_readings.len() ==> state.recent_readings[i]
                <= state.recent_readings[j],
        raw - state.recent_readings.last() > RAPID_CHANGE_THRESHOLD,
    ensures
        state.is_rapid_change(raw),
        state.add_measurement(temperature, raw).in_rapid_change_period,
        state.add_measurement(temperature, raw).current_baseline is None,
        state.add_measurement(temperature, raw).humidity_offset == state.humidity_offset,
        state.add_measurement(temperature, raw).long_term_statistical_offset
            == state.long_term_statistical_offset,
        state.add_measurement(temperature, raw).long_term_stable_count
            == state.long_term_stable_count,
        forall|next: i32| #[trigger] state.add_measurement(temperature, raw).calibrate(next) == next,
{
    let window = state.window_with(raw);
    let n = state.recent_readings.len() as int;
    assert(window.len() >= 2);
    assert(window[0] == state.recent_readings[0] || (n >= 2 && window[0]
        == state.recent_readings[1]));
    assert(window[0] <= state.recent_readings[n - 1]);
}

/// During a rapid-change period learning is suspended: a measurement that
/// leaves the calibrator in such a period has moved neither offset and has
/// not lengthened the run of stable readings; no baseline stands, and raw
/// values come back uncorrected. The period goes on exactly until a reading
/// that is no rapid change brings the run of stable readings to the required
/// length; that reading becomes the new baseline, with zero assumed drift.
pub proof fn lemma_learning_suspended_until_recovery(
    state: CalibrationState,
    temperature: i32,
    raw: i32,
)
    requires
        state.wf(),
    ensures
        state.add_measurement(temperature, raw).in_rapid_change_period ==> {
            let after = state.add_measurement(temperature, raw);
            &&& after.long_term_statistical_offset == state.long_term_statistical_offset
            &&& after.humidity_offset == state.humidity_offset
            &&& after.long_term_stable_count == state.long_term_stable_count
            &&& after.current_baseline is None
            &&& forall|next: i32| #[trigger] after.calibrate(next) == next
        },
        state.in_rapid_change_period ==> (state.add_measurement(
            temperature,
            raw,
        ).in_rapid_change_period <==> state.is_rapid_change(raw) || sat_inc(
            state.stable_reading_count,
        ) < MIN_STABLE_READINGS_AFTER_RAPID_CHANGE),
        state.in_rapid_change_period && !state.add_measurement(
            temperature,
            raw,
        ).in_rapid_change_period ==> {
            let after = state.add_measurement(temperature, raw);
            &&& after.current_baseline == Some(raw as int)
            &&& after.is_calibrated()
            &&& after.humidity_offset == 0
            &&& after.pre_change_baseline is None
        },
{
    lemma_add_measurement_wf(state, temperature, raw);
    let examined = state.handle_rapid_change(raw);
    if state.in_rapid_change_period && !state.suspends_learning(raw) {
        assert(examined.current_baseline == Some(raw as int));
        assert(examined.correct_drift(temperature, raw, raw as int).humidity_offset == 0);
    }
}

/// One learning step never moves an offset away from the value that cancels
/// the deviation: the distance to that value loses exactly its `divisor`-th
/// part, rounded down. The new distance is therefore within one unit of the
/// old one scaled by `(divisor - 1) / divisor`; it is strictly smaller once
/// the old one is at least `divisor`, and it never drops to zero in one step:
/// an offset is nudged, never replaced.
pub proof fn lemma_nudge_closes_in(offset: int, deviation: int, divisor: int)
    requires
        divisor > 1,
    ensures
        abs(nudge(offset, deviation, divisor) + deviation) == abs(offset + deviation) - abs(
            offset + deviation,
        ) / divisor,
        abs(nudge(offset, deviation, divisor) + deviation) <= abs(offset + deviation),
        abs(offset + deviation) >= divisor ==> abs(nudge(offset, deviation, divisor) + deviation)
            < abs(offset + deviation),
        (divisor - 1) * abs(offset + deviation) <= divisor * abs(
            nudge(offset, deviation, divisor) + deviation,
        ) <= (divisor - 1) * abs(offset + deviation) + (divisor - 1),
        offset + deviation != 0 ==> nudge(offset, deviation, divisor) + deviation != 0,
{
    let d = abs(offset + deviation);
    assert(0 <= d / divisor <= d && (d >= divisor ==> d / divisor >= 1) && (d > 0 ==> d / divisor
        < d) && divisor * (d / divisor) <= d <= divisor * (d / divisor) + (divisor - 1)
        && divisor * (d - d / divisor) == divisor * d - divisor * (d / divisor) && (divisor - 1) * d
        == divisor * d - d) by (nonlinear_arith)
        requires
            d >= 0,
            divisor > 1,
    ;
}

/// A decaying distance never grows, never turns negative, and either loses at
/// least one unit per step or is already below the divisor.
pub proof fn lemma_decayed_shrinks(distance: int, divisor: int, steps: nat)
    requires
        distance >= 0,
        divisor > 0,
    ensures
        0 <= decayed(distance, divisor, steps) <= distance,
        steps > 0 ==> decayed(distance, divisor, steps) <= decayed(
            distance,
            divisor,
            (steps - 1) as nat,
        ),
        decayed(distance, divisor, steps) < divisor || decayed(distance, divisor, steps)
            <= distance - steps,
    decreases steps,
{
    if steps > 0 {
        lemma_decayed_shrinks(distance, divisor, (steps - 1) as nat);
        let d = decayed(distance, divisor, (steps - 1) as nat);
        assert(0 <= d / divisor <= d && (d >= divisor ==> d / divisor >= 1) && (d < divisor
            ==> d / divisor == 0)) by (nonlinear_arith)
            requires
                d >= 0,
                divisor > 0,
        ;
    }
}

impl CalibrationState {
    /// The long-term correction is at work on `raw` at `temperature`, and
    /// will stay so while the same measurement repeats: the baseline stands
    /// outside any rapid-change period, the baseline and every recent
    /// reading are within the rapid-change threshold of `raw`, the run of
    /// stable readings is long enough, and `raw` is more than the long-term
    /// threshold away from the expected indoor humidity.
    pub open spec fn learning_long_term(self, temperature: i32, raw: i32) -> bool {
        &&& self.wf()
        &&& self.is_calibrated()
        &&& !self.in_rapid_change_period
        &&& self.current_baseline matches Some(b) && abs(raw - b) < RAPID_CHANGE_THRESHOLD
        &&& forall|i: int|
            0 <= i < self.recent_readings.len() ==> abs(raw - #[trigger] self.recent_readings[i])
                < RAPID_CHANGE_THRESHOLD
        &&& sat_inc(self.long_term_stable_count) >= MIN_READINGS_FOR_LONG_TERM_DRIFT
        &&& abs(raw - expected_indoor_humidity(temperature as int)) > LONG_TERM_DRIFT_THRESHOLD
    }
}

/// While a steady reading stays far from the expected indoor humidity, each
/// measurement nudges the long-term offset toward cancelling the deviation,
/// and leaves the calibrator ready to do so again.
pub proof fn lemma_long_term_step(state: CalibrationState, temperature: i32, raw: i32)
    requires
        state.learning_long_term(temperature, raw),
    ensures
        state.add_measurement(temperature, raw).learning_long_term(temperature, raw),
        state.add_measurement(temperature, raw).long_term_statistical_offset == nudge(
            state.long_term_statistical_offset,
            raw - expected_indoor_humidity(temperature as int),
            LONG_TERM_DRIFT_LEARNING_DIVISOR as int,
        ),
        state.add_measurement(temperature, raw).current_baseline == state.current_baseline,
        ({
            let deviation = raw - expected_indoor_humidity(temperature as int);
            let before = state.long_term_statistical_offset;
            let after = state.add_measurement(temperature, raw).long_term_statistical_offset;
            &&& before <= -deviation ==> before <= after <= -deviation
            &&& before >= -deviation ==> -deviation <= after <= before
            &&& abs(after + deviation) <= abs(before + deviation)
            &&& abs(before + deviation) >= LONG_TERM_DRIFT_LEARNING_DIVISOR ==> after != before
                && abs(after + deviation) < abs(before + deviation)
            &&& before != -deviation ==> after != -deviation
        }),
{
    lemma_nudge_between(
        state.long_term_statistical_offset,
        raw - expected_indoor_humidity(temperature as int),
        LONG_TERM_DRIFT_LEARNING_DIVISOR as int,
    );
    lemma_nudge_closes_in(
        state.long_term_statistical_offset,
        raw - expected_indoor_humidity(temperature as int),
        LONG_TERM_DRIFT_LEARNING_DIVISOR as int,
    );
    lemma_add_measurement_wf(state, temperature, raw);
    let window = state.window_with(raw);
    let n = state.recent_readings.len() as int;
    if n >= 1 {
        assert(window[0] == state.recent_readings[0] || (n >= 2 && window[0]
            == state.recent_readings[1]));
    }
    assert(!state.is_rapid_change(raw));
    let after = state.add_measurement(temperature, raw);
    assert(after.recent_readings == window);
    assert forall|i: int| 0 <= i < after.recent_readings.len() implies abs(
        raw - #[trigger] after.recent_readings[i],
    ) < RAPID_CHANGE_THRESHOLD by {
        if i < window.len() - 1 {
            if n >= CHANGE_HISTORY_SIZE {
                assert(window[i] == state.recent_readings[i + 1]);
            } else {
                assert(window[i] == state.recent_readings[i]);
            }
        }
    }
}

/// Under a steady reading that lies a constant deviation away from the
/// expected indoor humidity, the long-term offset converges on the value that
/// cancels the deviation: after any number of measurements its distance from
/// that value is the initial distance decayed by that many learning steps,
/// which never grows from one measurement to the next and, once as many
/// measurements as the initial distance have passed, is below the learning
/// divisor (0.2 %RH).
pub proof fn lemma_long_term_offset_converges(
    state: CalibrationState,
    temperature: i32,
    raw: i32,
    steps: nat,
)
    requires
        state.learning_long_term(temperature, raw),
    ensures
        after_repeated(state, temperature, raw, steps).learning_long_term(temperature, raw),
        abs(
            after_repeated(state, temperature, raw, steps).long_term_statistical_offset + (raw
                - expected_indoor_humidity(temperature as int)),
        ) == decayed(
            abs(
                state.long_term_statistical_offset + (raw - expected_indoor_humidity(
                    temperature as int,
                )),
            ),
            LONG_TERM_DRIFT_LEARNING_DIVISOR as int,
            steps,
        ),
        steps > 0 ==> abs(
            after_repeated(state, temperature, raw, steps).long_term_statistical_offset + (raw
                - expected_indoor_humidity(temperature as int)),
        ) <= abs(
            after_repeated(
                state,
                temperature,
                raw,
                (steps - 1) as nat,
            ).long_term_statistical_offset + (raw - expected_indoor_humidity(temperature as int)),
        ),
        steps >= abs(
            state.long_term_statistical_offset + (raw - expected_indoor_humidity(
                temperature as int,
            )),
        ) ==> abs(
            after_repeated(state, temperature, raw, steps).long_term_statistical_offset + (raw
                - expected_indoor_humidity(temperature as int)),
        ) < LONG_TERM_DRIFT_LEARNING_DIVISOR,
    decreases steps,
{
    let deviation = raw - expected_indoor_humidity(temperature as int);
    let start = abs(state.long_term_statistical_offset + deviation);
    lemma_decayed_shrinks(start, LONG_TERM_DRIFT_LEARNING_DIVISOR as int, steps);
    if steps > 0 {
        let before = after_repeated(state, temperature, raw, (steps - 1) as nat);
        lemma_long_term_offset_converges(state, temperature, raw, (steps - 1) as nat);
        lemma_long_term_step(before, temperature, raw);
        lemma_nudge_closes_in(
            before.long_term_statistical_offset,
            deviation,
            LONG_TERM_DRIFT_LEARNING_DIVISOR as int,
        );
    }
}

/// While the short-term offset rests at zero and the reading stays within
/// the drift threshold of the baseline, only the long-term offset moves, and
/// with it the corrected value moves toward the expected indoor humidity:
/// it stays between its old value and the expectation, so its distance from
/// the expectation never grows from one measurement to the next; where the
/// offset is a learning divisor or more away from its target and the
/// corrected value is inside the physical range, the corrected value moves
/// strictly. The calibrator is left in the same situation.
pub proof fn lemma_corrected_value_approaches_expectation(
    state: CalibrationState,
    temperature: i32,
    raw: i32,
)
    requires
        state.learning_long_term(temperature, raw),
        state.humidity_offset == 0,
        abs(raw - state.current_baseline->Some_0) <= MIN_DRIFT_THRESHOLD,
    ensures
        state.add_measurement(temperature, raw).learning_long_term(temperature, raw),
        state.add_measurement(temperature, raw).humidity_offset == 0,
        state.add_measurement(temperature, raw).current_baseline == state.current_baseline,
        ({
            let expected = expected_indoor_humidity(temperature as int);
            let before = state.calibrate(raw);
            let after = state.add_measurement(temperature, raw).calibrate(raw);
            &&& abs(after - expected) <= abs(before - expected)
            &&& before >= expected ==> expected <= after <= before
            &&& before <= expected ==> before <= after <= expected
            &&& abs(state.long_term_statistical_offset + (raw - expected))
                >= LONG_TERM_DRIFT_LEARNING_DIVISOR && 0 < before < MAX_HUMIDITY ==> after
                != before && abs(after - expected) < abs(before - expected)
        }),
{
    lemma_long_term_step(state, temperature, raw);
}

} // verus!
