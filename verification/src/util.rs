//! Small helpers shared across the crate.
use vstd::prelude::*;

verus! {

/// Linear congruential step used wherever a cheap pseudo-random
/// number is wanted. Advances the state in place and returns the new
/// value.
pub fn simple_rng(rng: &mut u32) -> (r: u32)
    ensures
        *final(rng) == vstd::wrapping::u32_specs::wrapping_add(
            vstd::wrapping::u32_specs::wrapping_mul(*old(rng), 1664525),
            1013904223,
        ),
        r == *final(rng),
{
    *rng = rng.wrapping_mul(1664525).wrapping_add(1013904223);
    *rng
}

/// Byte buffer whose host copy is kept cache-line aligned for the
/// device's direct memory access; here only the contents matter.
pub struct AlignedBuf<const SIZE: usize> {
    pub buf: [u8; SIZE],
}

impl<const SIZE: usize> AlignedBuf<SIZE> {
    /// A zero-filled buffer.
    pub fn new() -> (r: AlignedBuf<SIZE>)
        ensures
            forall|i: int| 0 <= i < SIZE ==> r.buf@[i] == 0u8,
    {
        AlignedBuf { buf: [0u8; SIZE] }
    }
}

/// Raw argument block of a scatter-gather control call, `ARGC` words
/// long.
pub struct Ioctlv<const ARGC: usize> {
    pub args: [u32; ARGC],
}

/// Marker for the device-side heap that backs the long-lived state
/// and the transient send buffers; all allocation goes through the
/// host.
#[derive(Debug, Clone, Copy, PartialEq, Eq, Structural)]
pub struct IosAllocator;

} // verus!
