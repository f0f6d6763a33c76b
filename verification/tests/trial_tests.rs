use membench::errors::BenchError;
use membench::trial::{plan_trial, Kernel, TrialSampleSet};

#[test]
fn invalid_chunk_sizes_are_rejected() {
    let cap: usize = 1 << 20;
    let min_total: usize = 1 << 20;
    assert_eq!(
        plan_trial(Kernel::Temporal, 0, min_total, cap).unwrap_err(),
        BenchError::InvalidParams
    );
    assert_eq!(
        plan_trial(Kernel::Temporal, 65, min_total, cap).unwrap_err(),
        BenchError::InvalidParams
    );
    assert_eq!(
        plan_trial(Kernel::Streaming, 100, min_total, cap).unwrap_err(),
        BenchError::InvalidParams
    );
    assert_eq!(
        plan_trial(Kernel::Temporal, cap + 64, min_total, cap).unwrap_err(),
        BenchError::InvalidParams
    );
    assert!(plan_trial(Kernel::Temporal, 64, min_total, cap).is_ok());
    assert!(plan_trial(Kernel::Temporal, cap, min_total, cap).is_ok());
}

#[test]
fn bytes_written_is_a_whole_number_of_chunks() {
    let cap: usize = 1 << 20;
    // a byte target that is not a whole number of chunks is rounded down,
    // but never below one chunk
    let p = plan_trial(Kernel::Temporal, 64, 100, cap).unwrap();
    assert_eq!(p.iterations, 1);
    assert_eq!(p.bytes_written, 64);
    // the streaming kernel's floor is sixteen chunks
    let p = plan_trial(Kernel::Streaming, 64, 0, cap).unwrap();
    assert_eq!(p.iterations, 16);
    assert_eq!(p.bytes_written, 1024);
    // a whole-number target is met exactly
    let p = plan_trial(Kernel::Streaming, 128, 1 << 20, cap).unwrap();
    assert_eq!(p.bytes_written, 1 << 20);
    assert_eq!(p.bytes_written % 128, 0);
}

#[test]
fn temporal_one_mib_scenario() {
    // capacity 1 MiB, chunk 64, byte target 1 MiB
    let p = plan_trial(Kernel::Temporal, 64, 1048576, 1048576).unwrap();
    assert_eq!(p.iterations, 16384);
    assert_eq!(p.bytes_written, 1048576);
    let mut set = TrialSampleSet::new(&p);
    let mut t: u64 = 0;
    while set.len() < p.iterations {
        set.record(t, t + 100, 20).unwrap();
        t += 100;
    }
    assert!(set.is_complete());
    assert_eq!(set.len(), 16384);
    assert_eq!(set.samples().len(), 16384);
    assert!(set.samples().iter().all(|&s| s == 80));
}

#[test]
fn sample_count_matches_iterations() {
    let p = plan_trial(Kernel::Streaming, 256, 0, 1 << 20).unwrap();
    let mut set = TrialSampleSet::new(&p);
    assert_eq!(set.target(), p.iterations);
    assert!(!set.is_complete());
    while set.len() < p.iterations {
        set.record(0, 50, 10).unwrap();
    }
    assert!(set.is_complete());
    assert_eq!(set.len(), p.iterations);
}

#[test]
fn negative_samples_are_an_error_not_clamped() {
    let p = plan_trial(Kernel::Temporal, 64, 64, 1 << 20).unwrap();
    let mut set = TrialSampleSet::new(&p);
    // interval smaller than the calibrated overhead
    assert_eq!(set.record(100, 110, 20).unwrap_err(), BenchError::BrokenCalibration);
    // counter reading that goes backwards
    assert_eq!(set.record(110, 100, 0).unwrap_err(), BenchError::BrokenCalibration);
    assert_eq!(set.len(), 0);
    // an interval equal to the overhead is a zero sample, not an error
    set.record(100, 120, 20).unwrap();
    assert_eq!(set.samples()[0], 0);
}
