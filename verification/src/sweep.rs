use vstd::prelude::*;
use crate::BLOCK_BYTES;

verus! {

/// One sweep step: grow the chunk size by at least one block and by about
/// one percent, then round down to a whole number of blocks.  Steps are
/// near-linear while the sizes are small — dense sampling where behavior
/// changes quickly — and near-geometric once one percent outgrows a block.
pub open spec fn next_size_spec(c: int) -> int {
    let grown = if c / 100 >= BLOCK_BYTES as int {
        c + c / 100
    } else {
        c + BLOCK_BYTES as int
    };
    (grown / (BLOCK_BYTES as int)) * (BLOCK_BYTES as int)
}

/// A block-aligned size steps to a larger block-aligned size: the sweep
/// always advances by at least one whole block.
pub proof fn lemma_next_size_grows(c: int)
    requires
        c >= 0,
        c % (BLOCK_BYTES as int) == 0,
    ensures
        next_size_spec(c) >= c + BLOCK_BYTES as int,
        next_size_spec(c) % (BLOCK_BYTES as int) == 0,
{
    let b = BLOCK_BYTES as int;
    let grown = if c / 100 >= b {
        c + c / 100
    } else {
        c + b
    };
    assert(c / 100 >= 0) by (nonlinear_arith)
        requires
            c >= 0,
    ;
    assert(grown >= c + b);
    assert((grown / b) * b >= c + b && ((grown / b) * b) % b == 0) by (nonlinear_arith)
        requires
            b == 64,
            c % b == 0,
            c >= 0,
            grown >= c + b,
    ;
}

/// While one percent of the size is under one block — sizes below 6400
/// bytes — the step rule is purely additive: one block per step.
pub proof fn lemma_step_additive(c: int)
    requires
        0 <= c < 6400,
        c % (BLOCK_BYTES as int) == 0,
    ensures
        next_size_spec(c) == c + BLOCK_BYTES as int,
{
    let b = BLOCK_BYTES as int;
    assert(c / 100 < b) by (nonlinear_arith)
        requires
            0 <= c < 6400,
            b == 64,
    ;
    assert(((c + b) / b) * b == c + b) by (nonlinear_arith)
        requires
            b == 64,
            c >= 0,
            c % b == 0,
    ;
}

/// One sweep step, as a value.
pub fn next_chunk_size(current: usize) -> (r: usize)
    requires
        current as int <= usize::MAX as int / 2,
    ensures
        r == next_size_spec(current as int),
{
    let pct: usize = current / 100;
    let grow: usize = if pct >= BLOCK_BYTES {
        pct
    } else {
        BLOCK_BYTES
    };
    let grown: usize = current + grow;
    proof {
        assert((grown as int / (BLOCK_BYTES as int)) * (BLOCK_BYTES as int) <= grown as int)
            by (nonlinear_arith)
            requires
                grown >= 0,
        ;
    }
    (grown / BLOCK_BYTES) * BLOCK_BYTES
}

/// Every chunk size the sweep visits, in ascending order: one block first,
/// then each successor under the step rule, as long as the size stays
/// within `max_size`.
pub fn sweep_sizes(max_size: usize) -> (r: Vec<usize>)
    requires
        max_size as int <= usize::MAX as int / 2,
    ensures
        forall|i: int|
            0 <= i < r@.len() ==> BLOCK_BYTES <= r@[i] <= max_size && r@[i] as int % (
            BLOCK_BYTES as int) == 0,
        forall|i: int| 0 <= i < r@.len() - 1 ==> r@[i + 1] == next_size_spec(r@[i] as int),
        max_size < BLOCK_BYTES ==> r@.len() == 0,
        max_size >= BLOCK_BYTES ==> r@.len() > 0 && r@[0] == BLOCK_BYTES && next_size_spec(
            r@.last() as int,
        ) > max_size,
    {
    let mut r: Vec<usize> = Vec::new();
    if max_size < BLOCK_BYTES {
        return r;
    }
    let mut c: usize = BLOCK_BYTES;
    while c <= max_size
        invariant
            max_size as int <= usize::MAX as int / 2,
            BLOCK_BYTES <= c,
            c as int % (BLOCK_BYTES as int) == 0,
            r@.len() == 0 ==> c == BLOCK_BYTES,
            r@.len() > 0 ==> r@[0] == BLOCK_BYTES,
            r@.len() > 0 ==> r@.last() <= max_size && c == next_size_spec(r@.last() as int),
            forall|i: int|
                0 <= i < r@.len() ==> BLOCK_BYTES <= r@[i] <= max_size && r@[i] as int % (
                BLOCK_BYTES as int) == 0,
            forall|i: int| 0 <= i < r@.len() - 1 ==> r@[i + 1] == next_size_spec(r@[i] as int),
        decreases vstd::math::max(0, max_size as int + BLOCK_BYTES as int - c as int),
    {
        r.push(c);
        proof {
            lemma_next_size_grows(c as int);
        }
        c = next_chunk_size(c);
    }
    r
}

} // verus!
