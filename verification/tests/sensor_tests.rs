use air_quality_monitor::event::Event;
use air_quality_monitor::humidity_calibrator::HumidityCalibrator;
use air_quality_monitor::median::MedianFilter3;
use air_quality_monitor::sensor::{
    calibration_status, humidity_percent, process_climate_reading, reduce_readings,
    select_air_quality, Aht21Readings, CalibrationStatus, Ens160Readings, SensorAction,
    SensorCycle, SensorFailure, SensorInput, SensorPhase,
};
use ens160_aq::data::AirQualityIndex;

fn start_cycle() -> SensorCycle {
    let mut cycle = SensorCycle::new();
    assert_eq!(cycle.phase(), SensorPhase::Initializing);
    assert_eq!(cycle.step(SensorInput::InitSucceeded), SensorAction::Warmup);
    assert_eq!(cycle.step(SensorInput::TimerElapsed), SensorAction::ReadClimate);
    cycle
}

fn take_sample(
    cycle: &mut SensorCycle,
    co2: u16,
    etoh: u16,
    air_quality: AirQualityIndex,
) -> SensorAction {
    assert_eq!(cycle.step(SensorInput::DataReady), SensorAction::ReadStatus);
    assert_eq!(cycle.step(SensorInput::StatusRead), SensorAction::ReadEco2);
    assert_eq!(cycle.step(SensorInput::Eco2Read(co2)), SensorAction::ReadEthanol);
    assert_eq!(cycle.step(SensorInput::EthanolRead(etoh)), SensorAction::ReadAirQuality);
    cycle.step(SensorInput::AirQualityRead(air_quality))
}

#[test]
fn air_quality_of_pair_at_median_is_selected() {
    let pairs = vec![
        (650u16, AirQualityIndex::Excellent),
        (700, AirQualityIndex::Good),
        (900, AirQualityIndex::Moderate),
    ];
    assert_eq!(select_air_quality(&pairs, 700), Some(AirQualityIndex::Good));
}

#[test]
fn closest_pair_is_selected_and_ties_go_to_the_first() {
    let pairs = vec![
        (600u16, AirQualityIndex::Excellent),
        (800, AirQualityIndex::Poor),
        (700, AirQualityIndex::Moderate),
    ];
    assert_eq!(select_air_quality(&pairs, 710), Some(AirQualityIndex::Moderate));
    assert_eq!(select_air_quality(&pairs, 0), Some(AirQualityIndex::Excellent));
    assert_eq!(select_air_quality(&pairs, u16::MAX), Some(AirQualityIndex::Poor));
    let tied = vec![(600u16, AirQualityIndex::Excellent), (800, AirQualityIndex::Poor)];
    assert_eq!(select_air_quality(&tied, 700), Some(AirQualityIndex::Excellent));
    let equal = vec![(700u16, AirQualityIndex::Unhealthy), (700, AirQualityIndex::Good)];
    assert_eq!(select_air_quality(&equal, 700), Some(AirQualityIndex::Unhealthy));
}

#[test]
fn nothing_is_selected_from_no_pairs() {
    let pairs: Vec<(u16, AirQualityIndex)> = Vec::new();
    assert_eq!(select_air_quality(&pairs, 700), None);
}

#[test]
fn three_samples_reduce_to_medians() {
    let mut co2 = MedianFilter3::new();
    let mut etoh = MedianFilter3::new();
    let samples = [
        (900u16, 10u16, AirQualityIndex::Moderate),
        (650, 30, AirQualityIndex::Excellent),
        (700, 20, AirQualityIndex::Good),
    ];
    let mut pairs = Vec::new();
    for (c, e, aq) in samples {
        co2.add_value(u32::from(c));
        etoh.add_value(u32::from(e));
        pairs.push((c, aq));
    }
    assert_eq!(
        reduce_readings(&co2, &etoh, &pairs),
        Ok(Ens160Readings { co2: 700, etoh: 20, air_quality: AirQualityIndex::Good })
    );
}

#[test]
fn reduction_without_samples_fails() {
    let co2 = MedianFilter3::new();
    let etoh = MedianFilter3::new();
    let pairs: Vec<(u16, AirQualityIndex)> = Vec::new();
    assert_eq!(reduce_readings(&co2, &etoh, &pairs), Err(SensorFailure::NoSamples));
}

#[test]
fn climate_reading_is_calibrated_and_offset() {
    let mut calibrator = HumidityCalibrator::new();
    let readings = process_climate_reading(&mut calibrator, 25_000, 48_300);
    assert_eq!(
        readings,
        Aht21Readings {
            raw_temperature: 25_000,
            display_temperature: 21_500,
            raw_humidity: 48_300,
            calibrated_humidity: 48_300,
        }
    );
    assert_eq!(calibrator.baseline_reading_count(), 1);
    let cold = process_climate_reading(&mut calibrator, i32::MIN, 48_300);
    assert_eq!(cold.display_temperature, i32::MIN);
}

#[test]
fn calibrated_humidity_carries_learned_offset() {
    let mut calibrator = HumidityCalibrator::new();
    for _ in 0..5 {
        let _ = process_climate_reading(&mut calibrator, 25_000, 50_000);
    }
    let readings = process_climate_reading(&mut calibrator, 25_000, 53_000);
    assert_eq!(readings.raw_humidity, 53_000);
    assert_eq!(readings.calibrated_humidity, 52_940);
}

#[test]
fn humidity_percent_drops_fraction_and_saturates() {
    assert_eq!(humidity_percent(50_000), 50);
    assert_eq!(humidity_percent(50_999), 50);
    assert_eq!(humidity_percent(999), 0);
    assert_eq!(humidity_percent(-999), 0);
    assert_eq!(humidity_percent(-50_000), 0);
    assert_eq!(humidity_percent(100_000), 100);
    assert_eq!(humidity_percent(i32::MAX), 65_535);
    assert_eq!(humidity_percent(i32::MIN), 0);
}

#[test]
fn calibration_status_names_the_regime() {
    let mut calibrator = HumidityCalibrator::new();
    assert_eq!(calibration_status(&calibrator), CalibrationStatus::EstablishingBaseline);
    for _ in 0..5 {
        calibrator.add_measurement(25_000, 50_000);
    }
    assert_eq!(calibration_status(&calibrator), CalibrationStatus::HybridDriftCorrection);
    calibrator.add_measurement(25_000, 60_000);
    assert_eq!(calibration_status(&calibrator), CalibrationStatus::EstablishingBaseline);
}

#[test]
fn failure_labels() {
    assert_eq!(SensorFailure::Aht21Init.label(), "Failed to initialize AHT21");
    assert_eq!(SensorFailure::Ens160Init.label(), "Failed to initialize ENS160");
    assert_eq!(
        SensorFailure::InterruptPinConfig.label(),
        "Failed to configure ENS160 interrupt pin"
    );
    assert_eq!(SensorFailure::Aht21Read.label(), "Failed to read AHT21 sensor");
    assert_eq!(
        SensorFailure::Compensation.label(),
        "Failed to set temperature and humidity compensation"
    );
    assert_eq!(SensorFailure::Status.label(), "Failed to get ENS160 status");
    assert_eq!(SensorFailure::Eco2.label(), "Failed to get eCO2");
    assert_eq!(SensorFailure::Ethanol.label(), "Failed to get ethanol");
    assert_eq!(SensorFailure::AirQuality.label(), "Failed to get Air Quality Index");
    assert_eq!(SensorFailure::NoSamples.label(), "No CO2-AQI pairs available");
}

#[test]
fn full_cycle_publishes_one_consistent_reading() {
    let mut cycle = start_cycle();
    assert_eq!(
        cycle.step(SensorInput::ClimateRead { temperature: 25_000, humidity: 50_400 }),
        SensorAction::SetCompensation { temperature: 25_000, humidity: 50 }
    );
    assert_eq!(cycle.step(SensorInput::CompensationSet), SensorAction::WaitDataReady);
    assert_eq!(
        take_sample(&mut cycle, 650, 10, AirQualityIndex::Excellent),
        SensorAction::WaitDataReady
    );
    assert_eq!(
        take_sample(&mut cycle, 700, 30, AirQualityIndex::Good),
        SensorAction::WaitDataReady
    );
    let action = take_sample(&mut cycle, 900, 20, AirQualityIndex::Moderate);
    assert_eq!(
        action,
        SensorAction::Publish(Event::SensorData {
            temperature: 21_500,
            humidity: 50_400,
            co2: 700,
            etoh: 20,
            air_quality: AirQualityIndex::Good,
        })
    );
    assert_eq!(action.health_report(), Some(true));
    assert_eq!(cycle.phase(), SensorPhase::Idle);
    assert_eq!(cycle.step(SensorInput::TimerElapsed), SensorAction::ReadClimate);
}

#[test]
fn each_cycle_starts_with_fresh_filters() {
    let mut cycle = start_cycle();
    for round in 0..3u16 {
        let _ = cycle.step(SensorInput::ClimateRead { temperature: 25_000, humidity: 50_000 });
        assert_eq!(cycle.step(SensorInput::CompensationSet), SensorAction::WaitDataReady);
        let base = 1_000 * (round + 1);
        let _ = take_sample(&mut cycle, base + 5, 1, AirQualityIndex::Poor);
        let _ = take_sample(&mut cycle, base, 2, AirQualityIndex::Good);
        let action = take_sample(&mut cycle, base + 9, 3, AirQualityIndex::Unhealthy);
        assert_eq!(
            action,
            SensorAction::Publish(Event::SensorData {
                temperature: 21_500,
                humidity: 50_000,
                co2: base + 5,
                etoh: 2,
                air_quality: AirQualityIndex::Poor,
            })
        );
        assert_eq!(cycle.step(SensorInput::TimerElapsed), SensorAction::ReadClimate);
    }
    assert_eq!(cycle.calibrator().baseline_reading_count(), 3);
}

#[test]
fn failed_climate_read_keeps_previous_compensation_and_fails_the_cycle() {
    let mut cycle = start_cycle();
    assert_eq!(
        cycle.step(SensorInput::ClimateFailed),
        SensorAction::SetCompensation { temperature: 25_000, humidity: 50 }
    );
    assert_eq!(cycle.step(SensorInput::CompensationSet), SensorAction::WaitDataReady);
    let _ = take_sample(&mut cycle, 650, 10, AirQualityIndex::Excellent);
    let _ = take_sample(&mut cycle, 700, 30, AirQualityIndex::Good);
    let action = take_sample(&mut cycle, 900, 20, AirQualityIndex::Moderate);
    assert_eq!(action, SensorAction::Fail(SensorFailure::Aht21Read));
    assert_eq!(action.health_report(), Some(false));
    assert_eq!(cycle.phase(), SensorPhase::Idle);

    // The next cycle reads the climate sensor; a later failure falls back on its values.
    assert_eq!(cycle.step(SensorInput::TimerElapsed), SensorAction::ReadClimate);
    assert_eq!(
        cycle.step(SensorInput::ClimateRead { temperature: 19_250, humidity: 61_900 }),
        SensorAction::SetCompensation { temperature: 19_250, humidity: 61 }
    );
    assert_eq!(
        cycle.step(SensorInput::CompensationFailed),
        SensorAction::Fail(SensorFailure::Compensation)
    );
    assert_eq!(cycle.step(SensorInput::TimerElapsed), SensorAction::ReadClimate);
    assert_eq!(
        cycle.step(SensorInput::ClimateFailed),
        SensorAction::SetCompensation { temperature: 19_250, humidity: 61 }
    );
}

#[test]
fn failed_gas_reads_end_the_cycle_with_their_label() {
    let attempts = [
        (SensorInput::StatusFailed, 1usize, SensorFailure::Status),
        (SensorInput::Eco2Failed, 2, SensorFailure::Eco2),
        (SensorInput::EthanolFailed, 3, SensorFailure::Ethanol),
        (SensorInput::AirQualityFailed, 4, SensorFailure::AirQuality),
    ];
    for (failing, after, failure) in attempts {
        let mut cycle = start_cycle();
        let _ = cycle.step(SensorInput::ClimateRead { temperature: 25_000, humidity: 50_000 });
        let _ = cycle.step(SensorInput::CompensationSet);
        let _ = take_sample(&mut cycle, 650, 10, AirQualityIndex::Excellent);
        let prefix = [
            SensorInput::DataReady,
            SensorInput::StatusRead,
            SensorInput::Eco2Read(700),
            SensorInput::EthanolRead(5),
        ];
        for input in prefix.iter().take(after) {
            let _ = cycle.step(*input);
        }
        let action = cycle.step(failing);
        assert_eq!(action, SensorAction::Fail(failure));
        assert_eq!(action.health_report(), Some(false));
        assert_eq!(cycle.phase(), SensorPhase::Idle);
        assert_eq!(cycle.step(SensorInput::TimerElapsed), SensorAction::ReadClimate);
    }
}

#[test]
fn failed_initialisation_halts_for_good() {
    let mut cycle = SensorCycle::new();
    let action = cycle.step(SensorInput::InitFailed(SensorFailure::Ens160Init));
    assert_eq!(action, SensorAction::Halt(SensorFailure::Ens160Init));
    assert_eq!(action.health_report(), Some(false));
    assert_eq!(cycle.phase(), SensorPhase::Halted);
    for input in [SensorInput::InitSucceeded, SensorInput::TimerElapsed, SensorInput::DataReady] {
        assert_eq!(cycle.step(input), SensorAction::Unexpected);
        assert_eq!(cycle.phase(), SensorPhase::Halted);
    }
}

#[test]
fn every_initialisation_failure_halts_with_its_reason() {
    for failure in
        [SensorFailure::Aht21Init, SensorFailure::Ens160Init, SensorFailure::InterruptPinConfig]
    {
        let mut cycle = SensorCycle::new();
        assert_eq!(cycle.step(SensorInput::InitFailed(failure)), SensorAction::Halt(failure));
        assert_eq!(cycle.phase(), SensorPhase::Halted);
    }
}

#[test]
fn published_air_quality_belongs_to_first_sample_at_the_median() {
    let mut cycle = start_cycle();
    let _ = cycle.step(SensorInput::ClimateRead { temperature: 20_000, humidity: 40_000 });
    let _ = cycle.step(SensorInput::CompensationSet);
    let _ = take_sample(&mut cycle, 800, 5, AirQualityIndex::Poor);
    let _ = take_sample(&mut cycle, 800, 5, AirQualityIndex::Moderate);
    let action = take_sample(&mut cycle, 400, 9, AirQualityIndex::Excellent);
    assert_eq!(
        action,
        SensorAction::Publish(Event::SensorData {
            temperature: 16_500,
            humidity: 40_000,
            co2: 800,
            etoh: 5,
            air_quality: AirQualityIndex::Poor,
        })
    );
}

#[test]
fn unexpected_input_changes_nothing() {
    let mut cycle = start_cycle();
    assert_eq!(cycle.step(SensorInput::DataReady), SensorAction::Unexpected);
    assert_eq!(cycle.step(SensorInput::Eco2Read(1)), SensorAction::Unexpected);
    assert_eq!(cycle.step(SensorInput::TimerElapsed), SensorAction::Unexpected);
    assert_eq!(cycle.phase(), SensorPhase::ReadingClimate);
    assert_eq!(SensorAction::Unexpected.health_report(), None);
    assert_eq!(SensorAction::ReadClimate.health_report(), None);
    assert_eq!(SensorAction::Warmup.health_report(), Some(true));
}

#[test]
fn machine_feeds_its_calibrator() {
    let mut cycle = start_cycle();
    for i in 0..5 {
        let _ = cycle.step(SensorInput::ClimateRead { temperature: 25_000, humidity: 50_000 });
        assert_eq!(cycle.calibrator().baseline_reading_count(), i + 1);
        let _ = cycle.step(SensorInput::CompensationFailed);
        let _ = cycle.step(SensorInput::TimerElapsed);
    }
    assert_eq!(
        cycle.step(SensorInput::ClimateRead { temperature: 25_000, humidity: 53_000 }),
        SensorAction::SetCompensation { temperature: 25_000, humidity: 52 }
    );
    assert_eq!(cycle.calibrator().get_calibration_info(), (true, -60, 0, 5, false, 1));
}
