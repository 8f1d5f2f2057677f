use vstd::prelude::*;

verus! {

/// The key that `order_key` gives to an IEEE-754 single-precision bit
/// pattern: a set sign bit flips every bit, a clear one gets the sign bit set.
pub open spec fn key_of(bits: u32) -> u32 {
    if bits & 0x8000_0000u32 != 0 {
        !bits
    } else {
        bits | 0x8000_0000u32
    }
}

/// Maps the bit pattern of an `f32` to an unsigned key. For two values that
/// are neither NaN nor both zeros, the keys compare as the numbers do, so a
/// ray parameter can be ordered and compared as a plain integer.
pub fn order_key(bits: u32) -> (r: u32)
    ensures
        r == key_of(bits),
{
    if bits & 0x8000_0000u32 != 0 {
        !bits
    } else {
        bits | 0x8000_0000u32
    }
}

} // verus!
