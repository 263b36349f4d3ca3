use sentry::calibration::Calibration;
use sentry::ranging::{CalibrationResult, Ranging};

#[test]
fn five_sample_window_statistic() {
    // Samples [100, 102, 98, 101, 99]: mean is exactly 100; the population
    // variance is 2, whose integer square root is 1.
    let mut cal = Calibration::new();
    for s in [100u16, 102, 98, 101, 99] {
        cal.add_sample(s);
    }
    assert_eq!(cal.num_samples(), 5);
    let point = cal.get_point();
    assert_eq!(point.mean, 100);
    assert_eq!(point.stddev, 1);
}

#[test]
fn threshold_is_mean_minus_three_stddev() {
    // With mean 100 and integer stddev 1 the threshold is 100 - 3.
    let mut cal = Calibration::new();
    let mut result = CalibrationResult::NeedMoreData;
    for s in [100u16, 102, 98, 101, 99] {
        result = Ranging::process_calibration(&mut cal, s);
    }
    assert_eq!(result, CalibrationResult::Done(97));
}

#[test]
fn threshold_clamps_at_zero() {
    // Mean 400, population variance 240000, stddev 489: the threshold
    // 400 - 3 * 489 is negative and clamps to zero.
    let mut cal = Calibration::new();
    let mut result = CalibrationResult::NeedMoreData;
    for s in [0u16, 1000, 0, 1000, 0] {
        result = Ranging::process_calibration(&mut cal, s);
    }
    assert_eq!(result, CalibrationResult::Done(0));
}

#[test]
fn incomplete_window_needs_more_data() {
    let mut cal = Calibration::new();
    for s in [100u16, 102, 98, 101] {
        assert_eq!(Ranging::process_calibration(&mut cal, s), CalibrationResult::NeedMoreData);
    }
    assert_eq!(cal.num_samples(), 4);
}

#[test]
fn constant_window_has_zero_stddev() {
    let mut cal = Calibration::new();
    for _ in 0..5 {
        cal.add_sample(500);
    }
    let point = cal.get_point();
    assert_eq!(point.mean, 500);
    assert_eq!(point.stddev, 0);
}

#[test]
fn extreme_window_statistic_stays_in_range() {
    let mut cal = Calibration::new();
    for _ in 0..5 {
        cal.add_sample(u16::MAX);
    }
    let point = cal.get_point();
    assert_eq!(point.mean, u16::MAX);
    assert_eq!(point.stddev, 0);
}
