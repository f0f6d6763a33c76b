use vstd::prelude::*;
use crate::errors::BenchError;
use crate::BLOCK_BYTES;
use crate::STREAM_MIN_CHUNKS;

verus! {

/// Store discipline a trial exercises.
#[derive(Clone, Copy, Debug, PartialEq, Eq, Structural)]
pub enum Kernel {
    /// Ordinary stores that may leave the written lines cache-resident.
    Temporal,
    /// Cache-bypassing streaming stores.
    Streaming,
}

/// A chunk size the trial runner accepts against a buffer of `capacity`
/// bytes: positive, a whole number of blocks, and no larger than the
/// buffer.
pub open spec fn valid_chunk(chunk_size: int, capacity: int) -> bool {
    &&& chunk_size > 0
    &&& chunk_size % (BLOCK_BYTES as int) == 0
    &&& chunk_size <= capacity
}

/// Total byte target for one trial: at least `min_total_bytes`, and at
/// least one chunk — sixteen for the streaming kernel, whose per-call
/// overhead amortizes well only over more repetitions.
pub open spec fn bench_size(kernel: Kernel, chunk_size: int, min_total_bytes: int) -> int {
    let floor = if kernel is Streaming {
        chunk_size * (STREAM_MIN_CHUNKS as int)
    } else {
        chunk_size
    };
    if min_total_bytes >= floor {
        min_total_bytes
    } else {
        floor
    }
}

/// How many chunk-sized writes one trial performs, and how many bytes they
/// cover in total.  Partial chunks are never measured: `bytes_written` is
/// the byte target rounded down to a whole number of chunks.
#[derive(Clone, Copy, Debug)]
pub struct TrialPlan {
    pub kernel: Kernel,
    pub chunk_size: usize,
    pub iterations: usize,
    pub bytes_written: usize,
}

/// Validate a chunk size and lay out one trial.  An invalid size is a
/// recoverable error — the sweep skips it — and never reaches a kernel: a
/// plan exists only for sizes a kernel accepts.
pub fn plan_trial(kernel: Kernel, chunk_size: usize, min_total_bytes: usize, capacity: usize)
    -> (r: Result<TrialPlan, BenchError>)
    requires
        capacity as int <= usize::MAX as int / (STREAM_MIN_CHUNKS as int),
    ensures
        r is Ok <==> valid_chunk(chunk_size as int, capacity as int),
        r matches Err(e) ==> e == BenchError::InvalidParams,
        r matches Ok(p) ==> {
            &&& p.kernel == kernel
            &&& p.chunk_size == chunk_size
            &&& p.iterations == bench_size(kernel, chunk_size as int, min_total_bytes as int)
                / chunk_size as int
            &&& p.bytes_written == p.iterations * chunk_size
            &&& p.bytes_written as int % chunk_size as int == 0
            &&& p.iterations >= 1
            &&& p.bytes_written >= chunk_size
            &&& p.bytes_written >= vstd::math::min(min_total_bytes as int, chunk_size as int)
            &&& kernel is Streaming ==> p.iterations >= STREAM_MIN_CHUNKS
                && p.bytes_written >= chunk_size * (STREAM_MIN_CHUNKS as int)
            &&& (min_total_bytes as int % chunk_size as int == 0) ==> p.bytes_written == bench_size(
                kernel,
                chunk_size as int,
                min_total_bytes as int,
            ) && p.bytes_written >= min_total_bytes
        },
{
    if chunk_size == 0 || chunk_size % BLOCK_BYTES != 0 || chunk_size > capacity {
        return Err(BenchError::InvalidParams);
    }
    let floor: usize = match kernel {
        Kernel::Temporal => chunk_size,
        Kernel::Streaming => chunk_size * STREAM_MIN_CHUNKS,
    };
    let bench: usize = if min_total_bytes >= floor {
        min_total_bytes
    } else {
        floor
    };
    let iterations: usize = bench / chunk_size;
    proof {
        lemma_plan_arithmetic(
            kernel,
            chunk_size as int,
            min_total_bytes as int,
            bench as int,
            iterations as int,
        );
    }
    let bytes_written: usize = iterations * chunk_size;
    Ok(TrialPlan { kernel, chunk_size, iterations, bytes_written })
}

/// The division and rounding facts behind a trial plan: a whole number of
/// chunks covers at least one chunk (sixteen for streaming), never more
/// than the target, and exactly the target when the target is itself a
/// whole number of chunks.
proof fn lemma_plan_arithmetic(kernel: Kernel, c: int, m: int, bench: int, iters: int)
    requires
        c > 0,
        m >= 0,
        bench == bench_size(kernel, c, m),
        iters == bench / c,
    ensures
        iters >= 1,
        iters * c <= bench,
        iters * c >= c,
        (iters * c) % c == 0,
        kernel is Streaming ==> iters >= STREAM_MIN_CHUNKS && iters * c >= c * (
        STREAM_MIN_CHUNKS as int),
        m % c == 0 ==> iters * c == bench && iters * c >= m,
{
    let floor = if kernel is Streaming {
        c * (STREAM_MIN_CHUNKS as int)
    } else {
        c
    };
    assert(bench >= floor);
    assert(floor >= c) by (nonlinear_arith)
        requires
            c > 0,
            floor == c || floor == c * (STREAM_MIN_CHUNKS as int),
            STREAM_MIN_CHUNKS as int == 16,
    ;
    assert(iters >= 1) by (nonlinear_arith)
        requires
            c > 0,
            bench >= c,
            iters == bench / c,
    ;
    assert(iters * c <= bench) by (nonlinear_arith)
        requires
            c > 0,
            iters == bench / c,
    ;
    assert(iters * c >= c) by (nonlinear_arith)
        requires
            c > 0,
            iters >= 1,
    ;
    assert((iters * c) % c == 0) by (nonlinear_arith)
        requires
            c > 0,
    ;
    if kernel is Streaming {
        assert(iters >= STREAM_MIN_CHUNKS && iters * c >= c * (STREAM_MIN_CHUNKS as int))
            by (nonlinear_arith)
            requires
                c > 0,
                bench >= c * (STREAM_MIN_CHUNKS as int),
                iters == bench / c,
        ;
    }
    if m % c == 0 {
        assert(bench % c == 0) by (nonlinear_arith)
            requires
                c > 0,
                m % c == 0,
                bench == m || bench == c || bench == c * (STREAM_MIN_CHUNKS as int),
        ;
        assert(iters * c == bench) by (nonlinear_arith)
            requires
                c > 0,
                bench % c == 0,
                iters == bench / c,
        ;
        assert(bench >= m);
    }
}

/// Per-iteration elapsed-cycle samples for one (chunk size, kernel) pair.
/// Filled one timed write at a time, and complete exactly when as many
/// samples stand as the plan has iterations.
pub struct TrialSampleSet {
    samples: Vec<u64>,
    target: usize,
}

impl TrialSampleSet {
    pub closed spec fn view(&self) -> Seq<u64> {
        self.samples@
    }

    /// The planned number of samples.
    pub closed spec fn target_spec(&self) -> int {
        self.target as int
    }

    /// A sample set never holds more samples than were planned.
    pub open spec fn wf(&self) -> bool {
        self@.len() <= self.target_spec()
    }

    /// An empty set sized to one plan's iteration count.
    pub fn new(plan: &TrialPlan) -> (s: TrialSampleSet)
        ensures
            s@ == Seq::<u64>::empty(),
            s.target_spec() == plan.iterations,
            s.wf(),
    {
        TrialSampleSet { samples: Vec::new(), target: plan.iterations }
    }

    pub fn len(&self) -> (n: usize)
        ensures
            n == self@.len(),
    {
        self.samples.len()
    }

    /// The planned number of samples, as a value.
    pub fn target(&self) -> (n: usize)
        ensures
            n == self.target_spec(),
    {
        self.target
    }

    /// One timed write: `t0` and `t1` are the counter readings around the
    /// kernel call, and the calibrated overhead is subtracted from the
    /// interval.  An interval smaller than the overhead would be a negative
    /// sample: the calibration no longer matches the counter, and that is
    /// an error condition, never a value to clamp.
    pub fn record(&mut self, t0: u64, t1: u64, overhead: u64) -> (r: Result<(), BenchError>)
        requires
            old(self).wf(),
            old(self)@.len() < old(self).target_spec(),
        ensures
            final(self).target_spec() == old(self).target_spec(),
            final(self).wf(),
            t0 <= t1 && t1 - t0 >= overhead ==> r is Ok && final(self)@ == old(self)@.push(
                (t1 - t0 - overhead) as u64,
            ),
            !(t0 <= t1 && t1 - t0 >= overhead) ==> final(self)@ == old(self)@ && (r matches Err(e)
                && e == BenchError::BrokenCalibration),
    {
        if t1 >= t0 {
            let delta: u64 = t1 - t0;
            if delta >= overhead {
                self.samples.push(delta - overhead);
                return Ok(());
            }
        }
        Err(BenchError::BrokenCalibration)
    }

    /// Complete exactly when the sample count equals the planned iteration
    /// count.
    pub fn is_complete(&self) -> (b: bool)
        ensures
            b <==> self@.len() == self.target_spec(),
    {
        self.samples.len() == self.target
    }

    /// The recorded samples, oldest first.
    pub fn samples(&self) -> (v: &Vec<u64>)
        ensures
            v@ == self@,
    {
        &self.samples
    }
}

} // verus!
