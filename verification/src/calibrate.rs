use vstd::prelude::*;
use crate::errors::BenchError;

verus! {

/// The subtractive correction applied to every timed interval: the minimal
/// measured cost of two back-to-back counter reads, held against the
/// configured baseline before use.
#[derive(Clone, Copy, Debug, PartialEq, Eq, Structural)]
pub struct CalibratedOverhead {
    pub cycles: u64,
}

/// The floor of a set of measured read-to-read deltas.  The minimum — not a
/// mean or a median — because the floor is the best-case, least-perturbed
/// cost of the counter read itself; any larger delta is scheduling or
/// interrupt noise, not real overhead.
pub fn min_delta(deltas: &Vec<u64>) -> (r: Option<u64>)
    ensures
        r is Some <==> deltas@.len() > 0,
        r matches Some(m) ==> deltas@.contains(m) && (forall|i: int|
            0 <= i < deltas@.len() ==> m <= deltas@[i]),
{
    if deltas.len() == 0 {
        return None;
    }
    let mut best: u64 = deltas[0];
    let mut i: usize = 1;
    while i < deltas.len()
        invariant
            1 <= i <= deltas@.len(),
            deltas@.contains(best),
            forall|j: int| 0 <= j < i ==> best <= deltas@[j],
        decreases deltas@.len() - i,
    {
        if deltas[i] < best {
            best = deltas[i];
        }
        i += 1;
    }
    Some(best)
}

/// Hold a freshly measured overhead against the configured baseline.  A
/// drift beyond `tolerance` cycles means a different machine or a changed
/// counter cost: every later measurement would be silently biased, so the
/// mismatch is fatal to the run.
pub fn check_calibration(measured: u64, expected: u64, tolerance: u64) -> (r: Result<
    CalibratedOverhead,
    BenchError,
>)
    ensures
        r is Ok <==> measured <= expected + tolerance && expected <= measured + tolerance,
        r matches Ok(c) ==> c.cycles == measured,
        r matches Err(e) ==> e == BenchError::CalibrationMismatch,
{
    let in_range: bool = if measured >= expected {
        measured - expected <= tolerance
    } else {
        expected - measured <= tolerance
    };
    if in_range {
        Ok(CalibratedOverhead { cycles: measured })
    } else {
        Err(BenchError::CalibrationMismatch)
    }
}

} // verus!
