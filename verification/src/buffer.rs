use vstd::prelude::*;
use vstd::pervasive::VecAdditionalExecFns;
use crate::BLOCK_BYTES;
use crate::INIT_BYTE;
use crate::PATTERN_BYTE;

verus! {

/// Byte that a write kernel leaves at position `k` of a written range:
/// each four-byte lane holds the pattern value, low byte first, so every
/// word of the block is written independently and no store can be
/// recognized as a no-op.
pub open spec fn pattern_byte(k: int) -> u8 {
    if k % 4 == 0 {
        PATTERN_BYTE
    } else {
        0
    }
}

/// Arguments under which a kernel may write: a nonempty whole number of
/// blocks lying inside a buffer of `capacity` bytes.
pub open spec fn chunk_args_ok(offset: int, length: int, capacity: int) -> bool {
    &&& length > 0
    &&& length % (BLOCK_BYTES as int) == 0
    &&& offset >= 0
    &&& offset + length <= capacity
}

/// A resident memory region: every byte is written once at construction,
/// so no first-touch page fault can land inside a timed section.
pub struct ResidentBuffer {
    data: Vec<u8>,
}

impl ResidentBuffer {
    pub closed spec fn view(&self) -> Seq<u8> {
        self.data@
    }

    pub fn capacity(&self) -> (n: usize)
        ensures
            n == self@.len(),
    {
        self.data.len()
    }

    /// Allocate `capacity` bytes and touch each one, byte zero through byte
    /// `capacity - 1`, before any timed operation can run.
    pub fn new(capacity: usize) -> (buf: ResidentBuffer)
        ensures
            buf@.len() == capacity,
            forall|k: int| 0 <= k < capacity ==> buf@[k] == INIT_BYTE,
    {
        let mut data: Vec<u8> = Vec::with_capacity(capacity);
        let mut i: usize = 0;
        while i < capacity
            invariant
                i <= capacity,
                data@.len() == i,
                forall|k: int| 0 <= k < i ==> data@[k] == INIT_BYTE,
            decreases capacity - i,
        {
            data.push(INIT_BYTE);
            i += 1;
        }
        ResidentBuffer { data }
    }

    /// Read one byte back: the side channel by which a caller observes that
    /// a kernel's stores really landed.
    pub fn read_byte(&self, index: usize) -> (b: u8)
        requires
            index < self@.len(),
        ensures
            b == self@[index as int],
    {
        self.data[index]
    }

    /// Temporal kernel: ordinary stores fill `[offset, offset + length)`
    /// with the lane pattern; every byte outside the range keeps its value.
    pub fn write_chunk(&mut self, offset: usize, length: usize)
        requires
            chunk_args_ok(offset as int, length as int, old(self)@.len() as int),
        ensures
            final(self)@.len() == old(self)@.len(),
            forall|k: int|
                offset <= k < offset + length ==> final(self)@[k] == pattern_byte(k - offset),
            forall|k: int|
                0 <= k < old(self)@.len() && !(offset <= k < offset + length) ==> final(self)@[k]
                    == old(self)@[k],
    {
        self.fill_pattern(offset, length);
    }

    /// Non-temporal kernel: the same observable effect as `write_chunk`.
    /// The store discipline differs at the hardware level — streaming
    /// stores bypass the cache and need a barrier so the never-read-back
    /// writes cannot be elided — which a value-level contract does not
    /// distinguish.
    pub fn write_chunk_streaming(&mut self, offset: usize, length: usize)
        requires
            chunk_args_ok(offset as int, length as int, old(self)@.len() as int),
        ensures
            final(self)@.len() == old(self)@.len(),
            forall|k: int|
                offset <= k < offset + length ==> final(self)@[k] == pattern_byte(k - offset),
            forall|k: int|
                0 <= k < old(self)@.len() && !(offset <= k < offset + length) ==> final(self)@[k]
                    == old(self)@[k],
    {
        self.fill_pattern(offset, length);
    }

    /// Store the lane pattern across `[offset, offset + length)`, one lane
    /// byte at a time.
    fn fill_pattern(&mut self, offset: usize, length: usize)
        requires
            chunk_args_ok(offset as int, length as int, old(self)@.len() as int),
        ensures
            final(self)@.len() == old(self)@.len(),
            forall|k: int|
                offset <= k < offset + length ==> final(self)@[k] == pattern_byte(k - offset),
            forall|k: int|
                0 <= k < old(self)@.len() && !(offset <= k < offset + length) ==> final(self)@[k]
                    == old(self)@[k],
    {
        let n: usize = self.data.len();
        let mut i: usize = 0;
        while i < length
            invariant
                i <= length,
                offset + length <= n,
                n == self@.len(),
                self@.len() == old(self)@.len(),
                forall|k: int|
                    offset <= k < offset + i ==> self@[k] == pattern_byte(k - offset),
                forall|k: int|
                    0 <= k < old(self)@.len() && !(offset <= k < offset + length) ==> self@[k]
                        == old(self)@[k],
            decreases length - i,
        {
            let b: u8 = if i % 4 == 0 {
                PATTERN_BYTE
            } else {
                0
            };
            self.data.set(offset + i, b);
            i += 1;
        }
    }
}

} // verus!
