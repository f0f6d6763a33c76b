use vstd::prelude::*;

pub mod buffer;
pub mod calibrate;
pub mod errors;
pub mod percentile;
pub mod sweep;
pub mod trial;

verus! {

/// Size in bytes of one write block (a cache line): every chunk a kernel
/// writes is a whole number of these.
pub const BLOCK_BYTES: usize = 64;

/// Byte stored into every position when a buffer is made resident.
pub const INIT_BYTE: u8 = 5;

/// Value of the four-byte lane pattern the write kernels store; the three
/// high bytes of the lane are zero.
pub const PATTERN_BYTE: u8 = 69;

/// The streaming kernel's per-call overhead amortizes only over more
/// repetitions, so its trials write at least this many chunks.
pub const STREAM_MIN_CHUNKS: usize = 16;

} // verus!
