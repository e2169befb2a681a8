use air_quality_monitor::humidity_calibrator::HumidityCalibrator;

const T25: i32 = 25_000;

fn feed(calibrator: &mut HumidityCalibrator, temperature: i32, raw: i32, times: usize) {
    for _ in 0..times {
        calibrator.add_measurement(temperature, raw);
    }
}

#[test]
fn new_calibrator_reports_nothing_learned() {
    let calibrator = HumidityCalibrator::new();
    assert_eq!(calibrator.get_calibration_info(), (false, 0, 0, 0, false, 0));
    assert_eq!(calibrator.baseline_reading_count(), 0);
    assert!(!calibrator.baseline_shifted());
    assert_eq!(calibrator.calibrate_humidity(T25, 47_300), 47_300);
}

#[test]
fn first_five_readings_come_back_unchanged() {
    let samples = [44_000, 44_500, 43_900, 44_200, 44_100];
    let mut calibrator = HumidityCalibrator::new();
    for (i, raw) in samples.iter().enumerate() {
        calibrator.add_measurement(T25, *raw);
        assert_eq!(calibrator.calibrate_humidity(T25, *raw), *raw);
        assert_eq!(calibrator.baseline_reading_count(), i + 1);
    }
    assert_eq!(calibrator.get_calibration_info(), (true, 0, 0, 5, false, 0));
}

#[test]
fn uncalibrated_value_is_not_clamped() {
    let mut calibrator = HumidityCalibrator::new();
    calibrator.add_measurement(T25, 120_000);
    assert_eq!(calibrator.calibrate_humidity(T25, 120_000), 120_000);
    assert_eq!(calibrator.calibrate_humidity(T25, -5), -5);
}

#[test]
fn calibrated_value_is_clamped_to_physical_range() {
    let mut calibrator = HumidityCalibrator::new();
    feed(&mut calibrator, T25, 50_000, 5);
    assert_eq!(calibrator.calibrate_humidity(T25, 120_000), 100_000);
    assert_eq!(calibrator.calibrate_humidity(T25, -1), 0);
    assert_eq!(calibrator.calibrate_humidity(T25, 100_000), 100_000);
    assert_eq!(calibrator.calibrate_humidity(T25, 0), 0);
}

#[test]
fn expected_indoor_humidity_follows_clamped_linear_model() {
    assert_eq!(HumidityCalibrator::expected_indoor_humidity(25_000), 45_000);
    assert_eq!(HumidityCalibrator::expected_indoor_humidity(0), 32_500);
    assert_eq!(HumidityCalibrator::expected_indoor_humidity(30_000), 47_500);
    assert_eq!(HumidityCalibrator::expected_indoor_humidity(24_999), 45_000);
    assert_eq!(HumidityCalibrator::expected_indoor_humidity(24_998), 44_999);
    assert_eq!(HumidityCalibrator::expected_indoor_humidity(-20_000), 25_000);
    assert_eq!(HumidityCalibrator::expected_indoor_humidity(80_000), 65_000);
    assert_eq!(HumidityCalibrator::expected_indoor_humidity(i32::MIN), 25_000);
    assert_eq!(HumidityCalibrator::expected_indoor_humidity(i32::MAX), 65_000);
}

#[test]
fn baseline_is_running_mean_of_first_readings() {
    let mut calibrator = HumidityCalibrator::new();
    // Means, rounded toward zero: 40000, 40500, 41000, 41500, 42000.
    for raw in [40_000, 41_000, 42_000, 43_000, 44_000] {
        calibrator.add_measurement(T25, raw);
    }
    // With the baseline at 42000 a reading of 44500 has drifted by 2500:
    // the offset moves by -2500 / 50.
    calibrator.add_measurement(T25, 44_500);
    assert_eq!(calibrator.get_calibration_info(), (true, -50, 0, 5, false, 1));
    assert_eq!(calibrator.calibrate_humidity(T25, 44_500), 44_450);
}

#[test]
fn small_drift_is_left_uncorrected() {
    let mut calibrator = HumidityCalibrator::new();
    feed(&mut calibrator, T25, 50_000, 5);
    calibrator.add_measurement(T25, 51_999);
    assert_eq!(calibrator.get_calibration_info(), (true, 0, 0, 5, false, 1));
    assert_eq!(calibrator.calibrate_humidity(T25, 51_999), 51_999);
}

#[test]
fn drift_of_exactly_the_threshold_is_left_uncorrected() {
    let mut calibrator = HumidityCalibrator::new();
    feed(&mut calibrator, T25, 50_000, 5);
    calibrator.add_measurement(T25, 52_000);
    assert_eq!(calibrator.get_calibration_info(), (true, 0, 0, 5, false, 1));
    calibrator.add_measurement(T25, 48_000);
    assert_eq!(calibrator.get_calibration_info(), (true, 0, 0, 5, false, 2));
    assert_eq!(calibrator.calibrate_humidity(T25, 52_000), 52_000);
}

#[test]
fn drift_above_threshold_nudges_short_term_offset() {
    let mut calibrator = HumidityCalibrator::new();
    feed(&mut calibrator, T25, 50_000, 5);
    calibrator.add_measurement(T25, 52_001);
    assert_eq!(calibrator.get_calibration_info(), (true, -40, 0, 5, false, 1));
    // Second step: -40 - (-40 + 2001) / 50 = -40 - 39.
    calibrator.add_measurement(T25, 52_001);
    assert_eq!(calibrator.get_calibration_info(), (true, -79, 0, 5, false, 2));
    assert_eq!(calibrator.calibrate_humidity(T25, 52_001), 51_922);
}

#[test]
fn negative_drift_nudges_offset_upwards() {
    let mut calibrator = HumidityCalibrator::new();
    feed(&mut calibrator, T25, 50_000, 5);
    calibrator.add_measurement(T25, 47_000);
    assert_eq!(calibrator.get_calibration_info(), (true, 60, 0, 5, false, 1));
    assert_eq!(calibrator.calibrate_humidity(T25, 47_000), 47_060);
}

#[test]
fn rapid_rise_is_flagged_by_the_sample_that_completes_it() {
    let mut calibrator = HumidityCalibrator::new();
    calibrator.add_measurement(T25, 45_000);
    calibrator.add_measurement(T25, 45_100);
    assert_eq!(calibrator.get_calibration_info(), (false, 0, 0, 2, false, 0));
    calibrator.add_measurement(T25, 51_000);
    assert_eq!(calibrator.get_calibration_info(), (false, 0, 0, 0, true, 0));
    assert_eq!(calibrator.calibrate_humidity(T25, 51_000), 51_000);
}

#[test]
fn change_up_to_the_threshold_is_not_rapid() {
    let mut calibrator = HumidityCalibrator::new();
    calibrator.add_measurement(T25, 45_000);
    calibrator.add_measurement(T25, 49_999);
    assert_eq!(calibrator.get_calibration_info(), (false, 0, 0, 2, false, 0));
    let mut rising = HumidityCalibrator::new();
    rising.add_measurement(T25, 40_000);
    rising.add_measurement(T25, 45_000);
    assert_eq!(rising.get_calibration_info(), (false, 0, 0, 2, false, 0));
    let mut falling = HumidityCalibrator::new();
    falling.add_measurement(T25, 45_000);
    falling.add_measurement(T25, 40_000);
    assert_eq!(falling.get_calibration_info(), (false, 0, 0, 2, false, 0));
}

#[test]
fn change_beyond_the_threshold_is_rapid_in_either_direction() {
    let mut rising = HumidityCalibrator::new();
    rising.add_measurement(T25, 40_000);
    rising.add_measurement(T25, 45_001);
    assert_eq!(rising.get_calibration_info(), (false, 0, 0, 0, true, 0));
    let mut falling = HumidityCalibrator::new();
    falling.add_measurement(T25, 45_000);
    falling.add_measurement(T25, 39_999);
    assert_eq!(falling.get_calibration_info(), (false, 0, 0, 0, true, 0));
}

#[test]
fn rapid_change_forgets_baseline_and_lets_offsets_rest_until_recovery() {
    let mut calibrator = HumidityCalibrator::new();
    feed(&mut calibrator, T25, 50_000, 5);
    calibrator.add_measurement(T25, 53_000);
    assert_eq!(calibrator.get_calibration_info(), (true, -60, 0, 5, false, 1));
    // 8000 across the window: the period opens, the offset stays.
    calibrator.add_measurement(T25, 58_000);
    assert_eq!(calibrator.get_calibration_info(), (false, -60, 0, 0, true, 1));
    assert_eq!(calibrator.calibrate_humidity(T25, 58_000), 58_000);
    // Eleven stable readings: still suspended, nothing moves.
    for _ in 0..11 {
        calibrator.add_measurement(T25, 58_000);
        assert_eq!(calibrator.get_calibration_info(), (false, -60, 0, 0, true, 1));
        assert_eq!(calibrator.calibrate_humidity(T25, 58_000), 58_000);
    }
    // The twelfth ends the period: new baseline, zero assumed drift.
    calibrator.add_measurement(T25, 58_000);
    assert_eq!(calibrator.get_calibration_info(), (true, 0, 0, 5, false, 2));
    assert_eq!(calibrator.calibrate_humidity(T25, 58_000), 58_000);
}

#[test]
fn distance_of_exactly_the_shift_threshold_confirms_nothing() {
    let mut at_threshold = HumidityCalibrator::new();
    at_threshold.add_measurement(T25, 45_000);
    at_threshold.add_measurement(T25, 45_000);
    at_threshold.add_measurement(T25, 53_000);
    at_threshold.add_measurement(T25, 53_000);
    for _ in 0..11 {
        at_threshold.add_measurement(T25, 53_000);
        assert!(!at_threshold.baseline_shifted());
    }
    let mut above = HumidityCalibrator::new();
    above.add_measurement(T25, 45_000);
    above.add_measurement(T25, 45_000);
    above.add_measurement(T25, 53_001);
    above.add_measurement(T25, 53_001);
    for _ in 0..6 {
        above.add_measurement(T25, 53_001);
    }
    assert!(above.baseline_shifted());
}

#[test]
fn learning_is_suspended_until_twelve_stable_readings() {
    let mut calibrator = HumidityCalibrator::new();
    calibrator.add_measurement(T25, 45_000);
    calibrator.add_measurement(T25, 45_100);
    calibrator.add_measurement(T25, 51_000);
    // The window still reaches back to 45100: a rapid change once more.
    calibrator.add_measurement(T25, 51_000);
    for _ in 0..11 {
        calibrator.add_measurement(T25, 51_000);
        assert_eq!(calibrator.get_calibration_info(), (false, 0, 0, 0, true, 0));
        assert_eq!(calibrator.calibrate_humidity(T25, 51_000), 51_000);
    }
    calibrator.add_measurement(T25, 51_000);
    assert_eq!(calibrator.get_calibration_info(), (true, 0, 0, 5, false, 1));
    assert!(!calibrator.baseline_shifted());
    // The reading adopted at recovery is the baseline: 53500 has drifted by 2500.
    calibrator.add_measurement(T25, 53_500);
    assert_eq!(calibrator.get_calibration_info(), (true, -50, 0, 5, false, 2));
}

#[test]
fn sustained_shift_is_confirmed_after_six_readings_and_period_still_ends() {
    let mut calibrator = HumidityCalibrator::new();
    calibrator.add_measurement(T25, 45_000);
    calibrator.add_measurement(T25, 45_000);
    calibrator.add_measurement(T25, 55_000);
    calibrator.add_measurement(T25, 55_000);
    for _ in 0..5 {
        calibrator.add_measurement(T25, 55_000);
        assert!(!calibrator.baseline_shifted());
    }
    calibrator.add_measurement(T25, 55_000);
    assert!(calibrator.baseline_shifted());
    assert_eq!(calibrator.get_calibration_info(), (false, 0, 0, 0, true, 0));
    for _ in 0..5 {
        calibrator.add_measurement(T25, 55_000);
        assert!(calibrator.baseline_shifted());
    }
    calibrator.add_measurement(T25, 55_000);
    assert!(!calibrator.baseline_shifted());
    assert_eq!(calibrator.get_calibration_info(), (true, 0, 0, 5, false, 1));
}

#[test]
fn long_term_offset_starts_after_hundred_stable_readings() {
    let mut calibrator = HumidityCalibrator::new();
    // Expected indoor humidity at 25 degrees is 45000; the sensor reads 60000.
    feed(&mut calibrator, T25, 60_000, 104);
    assert_eq!(calibrator.get_calibration_info(), (true, 0, 0, 5, false, 99));
    calibrator.add_measurement(T25, 60_000);
    assert_eq!(calibrator.get_calibration_info(), (true, 0, -75, 5, false, 100));
    assert_eq!(calibrator.calibrate_humidity(T25, 60_000), 59_925);
    calibrator.add_measurement(T25, 60_000);
    assert_eq!(calibrator.get_calibration_info(), (true, 0, -149, 5, false, 101));
}

#[test]
fn long_term_offset_converges_monotonically_toward_cancelling_bias() {
    let mut calibrator = HumidityCalibrator::new();
    feed(&mut calibrator, T25, 60_000, 104);
    let mut previous_distance: i64 = 15_000;
    for _ in 0..3_000 {
        calibrator.add_measurement(T25, 60_000);
        let offset = calibrator.get_calibration_info().2;
        let distance = (offset + 15_000).abs();
        assert!(distance <= previous_distance);
        assert!(offset <= 0 && offset >= -15_000);
        previous_distance = distance;
    }
    assert!(previous_distance < 200);
    let calibrated = calibrator.calibrate_humidity(T25, 60_000);
    assert!((calibrated - 45_000).abs() < 200);
}

#[test]
fn long_term_correction_ignores_deviation_below_threshold() {
    let mut calibrator = HumidityCalibrator::new();
    feed(&mut calibrator, T25, 54_999, 300);
    assert_eq!(calibrator.get_calibration_info(), (true, 0, 0, 5, false, 295));
    let mut at_threshold = HumidityCalibrator::new();
    feed(&mut at_threshold, T25, 55_000, 300);
    assert_eq!(at_threshold.get_calibration_info(), (true, 0, 0, 5, false, 295));
    let mut above = HumidityCalibrator::new();
    feed(&mut above, T25, 55_001, 105);
    assert_eq!(above.get_calibration_info(), (true, 0, -50, 5, false, 100));
}

#[test]
fn learned_offsets_can_push_value_to_upper_clamp() {
    let mut calibrator = HumidityCalibrator::new();
    // Reads 25000 below the expectation: the long-term offset turns positive.
    feed(&mut calibrator, T25, 20_000, 105);
    assert_eq!(calibrator.get_calibration_info().2, 125);
    assert_eq!(calibrator.calibrate_humidity(T25, 99_900), 100_000);
    assert_eq!(calibrator.calibrate_humidity(T25, 99_000), 99_125);
}

#[test]
fn large_drift_restarts_long_term_run() {
    let mut calibrator = HumidityCalibrator::new();
    feed(&mut calibrator, T25, 50_000, 20);
    assert_eq!(calibrator.get_calibration_info().5, 15);
    // Creep upwards by 2400 per reading: never a rapid change across the
    // window of three, but 7200 above the baseline at the third step.
    calibrator.add_measurement(T25, 52_400);
    calibrator.add_measurement(T25, 54_800);
    assert_eq!(calibrator.get_calibration_info().5, 17);
    calibrator.add_measurement(T25, 57_200);
    assert_eq!(calibrator.get_calibration_info().5, 0);
    assert!(!calibrator.get_calibration_info().4);
}

#[test]
fn extreme_readings_do_not_overflow() {
    let mut calibrator = HumidityCalibrator::new();
    for raw in [i32::MAX, i32::MIN, i32::MAX, i32::MIN, 0, i32::MAX, i32::MAX, i32::MAX] {
        calibrator.add_measurement(i32::MIN, raw);
        let _ = calibrator.calibrate_humidity(i32::MAX, raw);
    }
    assert!(calibrator.get_calibration_info().4);
}

#[test]
fn correction_steps_can_be_applied_one_by_one() {
    let mut calibrator = HumidityCalibrator::new();
    // Without a long enough run of stable readings the long-term step rests.
    calibrator.apply_long_term_drift_correction(T25, 60_000);
    assert_eq!(calibrator.get_calibration_info(), (false, 0, 0, 0, false, 0));
    for _ in 0..99 {
        calibrator.update_long_term_stability(4_999);
    }
    calibrator.apply_long_term_drift_correction(T25, 60_000);
    assert_eq!(calibrator.get_calibration_info(), (false, 0, 0, 0, false, 99));
    calibrator.update_long_term_stability(-4_999);
    // 10000 from the expectation is not more than the threshold; 10001 is.
    calibrator.apply_long_term_drift_correction(T25, 55_000);
    assert_eq!(calibrator.get_calibration_info(), (false, 0, 0, 0, false, 100));
    calibrator.apply_long_term_drift_correction(T25, 55_001);
    assert_eq!(calibrator.get_calibration_info(), (false, 0, -50, 0, false, 100));
    calibrator.apply_long_term_drift_correction(T25, 34_999);
    // -50 - (-50 - 10001) / 200 = -50 + 50.
    assert_eq!(calibrator.get_calibration_info(), (false, 0, 0, 0, false, 100));
    calibrator.update_long_term_stability(5_000);
    assert_eq!(calibrator.get_calibration_info(), (false, 0, 0, 0, false, 0));
    calibrator.update_long_term_stability(i64::MIN);
    assert_eq!(calibrator.get_calibration_info(), (false, 0, 0, 0, false, 0));

    calibrator.apply_baseline_drift_correction(50_000, 52_000);
    assert_eq!(calibrator.get_calibration_info(), (false, 0, 0, 0, false, 0));
    calibrator.apply_baseline_drift_correction(50_000, 53_000);
    assert_eq!(calibrator.get_calibration_info(), (false, -60, 0, 0, false, 0));
    // -60 - (-60 - 3000) / 50 = -60 + 61.
    calibrator.apply_baseline_drift_correction(50_000, 47_000);
    assert_eq!(calibrator.get_calibration_info(), (false, 1, 0, 0, false, 0));
}
