use vstd::prelude::*;

verus! {

/// The measurement engine's error conditions.
///
/// `InvalidParams` is recoverable: the sweep simply skips that chunk size.
/// The other two mean the timing baseline cannot be trusted, so a run must
/// stop rather than emit silently biased numbers.
#[derive(Clone, Copy, Debug, PartialEq, Eq, Structural)]
pub enum BenchError {
    /// Chunk size zero, not a whole number of blocks, or over the buffer
    /// capacity.
    InvalidParams,
    /// A freshly measured counter overhead too far from the configured
    /// baseline: a different machine or a changed counter cost.
    CalibrationMismatch,
    /// A timed interval smaller than the subtracted overhead: the
    /// calibration no longer matches the counter.
    BrokenCalibration,
}

} // verus!
