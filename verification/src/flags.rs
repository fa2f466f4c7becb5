//! Setting and testing single flag bits in the small flag words that the
//! virtqueue structures and device headers carry.

use vstd::prelude::*;

verus! {

/// Setting a mask into a 16-bit word sets the masked bits and keeps the rest;
/// clearing it clears them and keeps the rest.
pub proof fn lemma_flag16(flags: u16, mask: u16)
    by (bit_vector)
    ensures
        (flags | mask) & mask == mask,
        (flags | mask) & !mask == flags & !mask,
        (flags & !mask) & mask == 0,
        (flags & !mask) & !mask == flags & !mask,
{
}

/// The 8-bit counterpart of `lemma_flag16`.
pub proof fn lemma_flag8(flags: u8, mask: u8)
    by (bit_vector)
    ensures
        (flags | mask) & mask == mask,
        (flags | mask) & !mask == flags & !mask,
        (flags & !mask) & mask == 0,
        (flags & !mask) & !mask == flags & !mask,
{
}

/// The 32-bit counterpart of `lemma_flag16`.
pub proof fn lemma_flag32(flags: u32, mask: u32)
    by (bit_vector)
    ensures
        (flags | mask) & mask == mask,
        (flags | mask) & !mask == flags & !mask,
        (flags & !mask) & mask == 0,
        (flags & !mask) & !mask == flags & !mask,
{
}

/// Sets (`on`) or clears the bits of `mask` in a 16-bit flag word.
pub fn set_flag16(flags: u16, mask: u16, on: bool) -> (r: u16)
    ensures
        r & mask == (if on { mask } else { 0u16 }),
        r & !mask == flags & !mask,
{
    proof {
        lemma_flag16(flags, mask);
    }
    if on {
        flags | mask
    } else {
        flags & !mask
    }
}

/// Sets (`on`) or clears the bits of `mask` in an 8-bit flag word.
pub fn set_flag8(flags: u8, mask: u8, on: bool) -> (r: u8)
    ensures
        r & mask == (if on { mask } else { 0u8 }),
        r & !mask == flags & !mask,
{
    proof {
        lemma_flag8(flags, mask);
    }
    if on {
        flags | mask
    } else {
        flags & !mask
    }
}

/// Setting bits twice sets them once.
pub proof fn lemma_or_twice32(x: u32, bits: u32)
    by (bit_vector)
    ensures
        (x | bits) | bits == x | bits,
{
}

/// The two 32-bit halves of a 64-bit word, and replacing one of them.
pub proof fn lemma_words64(x: u64, v: u32)
    by (bit_vector)
    ensures
        x as u32 == x % 0x1_0000_0000,
        (x >> 32u64) as u32 == x / 0x1_0000_0000,
        (x & 0xFFFF_FFFF_0000_0000u64) | (v as u64) == (x / 0x1_0000_0000) * 0x1_0000_0000 + v,
        (x & 0x0000_0000_FFFF_FFFFu64) | ((v as u64) << 32u64) == (v as u64) * 0x1_0000_0000 + x
            % 0x1_0000_0000,
{
}

} // verus!
