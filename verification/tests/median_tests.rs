use air_quality_monitor::buffers::{Co2Buffer, HumidityWindow, SampleBuffer};
use ens160_aq::data::AirQualityIndex;
use air_quality_monitor::median::{MedianFilter3, MedianFilter5, SAMPLE_LIMIT};

#[test]
fn empty_filters_have_no_median() {
    assert_eq!(MedianFilter3::new().median(), None);
    assert_eq!(MedianFilter5::new().median(), None);
    assert_eq!(MedianFilter3::new().len(), 0);
    assert_eq!(MedianFilter5::new().len(), 0);
}

#[test]
fn filter3_returns_true_median_at_every_step() {
    let mut filter = MedianFilter3::new();
    let inputs = [650u32, 900, 700, 100, 100, 5000, 4999, 0];
    // Windows: [650] [650,900] [650,900,700] [900,700,100] [700,100,100]
    //          [100,100,5000] [100,5000,4999] [5000,4999,0]
    let medians = [650u32, 775, 700, 700, 100, 100, 4999, 4999];
    for (value, expected) in inputs.iter().zip(medians.iter()) {
        filter.add_value(*value);
        assert_eq!(filter.median(), Some(*expected));
    }
    assert_eq!(filter.len(), 3);
}

#[test]
fn filter5_returns_true_median_at_every_step() {
    let mut filter = MedianFilter5::new();
    let inputs = [4000u32, 3900, 4100, 3800, 3950, 3700, 4200, 4200, 4200];
    // Windows grow to five samples, then slide.
    let medians = [4000u32, 3950, 4000, 3950, 3950, 3900, 3950, 3950, 4200];
    for (value, expected) in inputs.iter().zip(medians.iter()) {
        filter.add_value(*value);
        assert_eq!(filter.median(), Some(*expected));
    }
    assert_eq!(filter.len(), 5);
}

#[test]
fn even_window_takes_mean_rounded_down() {
    let mut filter = MedianFilter5::new();
    filter.add_value(10);
    filter.add_value(11);
    assert_eq!(filter.median(), Some(10));
    filter.add_value(3);
    filter.add_value(20);
    // Sorted: 3 10 11 20.
    assert_eq!(filter.median(), Some(10));
}

#[test]
fn filters_take_samples_up_to_the_limit() {
    let mut filter = MedianFilter3::new();
    filter.add_value(SAMPLE_LIMIT);
    filter.add_value(SAMPLE_LIMIT);
    assert_eq!(filter.median(), Some(SAMPLE_LIMIT));
    filter.add_value(0);
    assert_eq!(filter.median(), Some(SAMPLE_LIMIT));
}

#[test]
fn median_agrees_with_sorting_on_sliding_windows() {
    let mut filter3 = MedianFilter3::new();
    let mut filter5 = MedianFilter5::new();
    let mut seen: Vec<u32> = Vec::new();
    let mut x: u32 = 12345;
    for _ in 0..200 {
        x = x.wrapping_mul(1_103_515_245).wrapping_add(12_345) % 100_000;
        seen.push(x);
        filter3.add_value(x);
        filter5.add_value(x);
        for (size, got) in [(3usize, filter3.median()), (5usize, filter5.median())] {
            let start = seen.len().saturating_sub(size);
            let mut window: Vec<u32> = seen[start..].to_vec();
            window.sort();
            let n = window.len();
            let expected = if n % 2 == 1 { window[n / 2] } else { (window[n / 2 - 1] + window[n / 2]) / 2 };
            assert_eq!(got, Some(expected));
        }
    }
}

#[test]
fn co2_buffer_keeps_last_ten_in_order() {
    let mut buffer = Co2Buffer::new();
    assert_eq!(buffer.len(), 0);
    for value in 1..=10u16 {
        buffer.push_evicting(value * 100);
    }
    assert_eq!(buffer.len(), 10);
    assert_eq!(buffer.as_slice(), &[100, 200, 300, 400, 500, 600, 700, 800, 900, 1000]);
    buffer.push_evicting(1100);
    buffer.push_evicting(1200);
    assert_eq!(buffer.len(), 10);
    assert_eq!(buffer.as_slice(), &[300, 400, 500, 600, 700, 800, 900, 1000, 1100, 1200]);
}

#[test]
fn humidity_window_keeps_last_three_in_order() {
    let mut window = HumidityWindow::new();
    window.push_evicting(-5);
    assert_eq!(window.as_slice(), &[-5]);
    window.push_evicting(7);
    window.push_evicting(9);
    assert_eq!(window.len(), 3);
    assert_eq!(window.as_slice(), &[-5, 7, 9]);
    window.push_evicting(11);
    assert_eq!(window.len(), 3);
    assert_eq!(window.as_slice(), &[7, 9, 11]);
}

#[test]
fn sample_buffer_takes_three_samples_in_order() {
    let mut buffer = SampleBuffer::new();
    assert_eq!(buffer.len(), 0);
    assert!(buffer.as_slice().is_empty());
    assert!(buffer.push(650, AirQualityIndex::Excellent));
    assert!(buffer.push(700, AirQualityIndex::Good));
    assert_eq!(buffer.len(), 2);
    assert!(buffer.push(900, AirQualityIndex::Moderate));
    assert!(!buffer.push(1, AirQualityIndex::Poor));
    assert_eq!(buffer.len(), 3);
    assert_eq!(
        buffer.as_slice(),
        &[
            (650, AirQualityIndex::Excellent),
            (700, AirQualityIndex::Good),
            (900, AirQualityIndex::Moderate),
        ]
    );
}
