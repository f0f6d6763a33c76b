use membench::calibrate::{check_calibration, min_delta};
use membench::errors::BenchError;

#[test]
fn min_delta_is_the_floor() {
    assert_eq!(min_delta(&vec![30, 24, 28, 24, 99]), Some(24));
    assert_eq!(min_delta(&vec![7]), Some(7));
    assert_eq!(min_delta(&Vec::new()), None);
}

#[test]
fn calibration_within_tolerance_is_accepted() {
    assert_eq!(check_calibration(26, 24, 4).unwrap().cycles, 26);
    assert_eq!(check_calibration(22, 24, 4).unwrap().cycles, 22);
    assert_eq!(check_calibration(24, 24, 0).unwrap().cycles, 24);
}

#[test]
fn calibration_drift_is_fatal() {
    assert_eq!(check_calibration(40, 24, 4).unwrap_err(), BenchError::CalibrationMismatch);
    assert_eq!(check_calibration(10, 24, 4).unwrap_err(), BenchError::CalibrationMismatch);
}

#[test]
fn close_repeated_overheads_both_pass() {
    // two immediately repeated calibrations land within a small tolerance of
    // each other; both pass the same baseline check
    let first: u64 = 24;
    let second: u64 = 26;
    assert!(check_calibration(first, 24, 4).is_ok());
    assert!(check_calibration(second, 24, 4).is_ok());
}
