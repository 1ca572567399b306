//! Packing and splitting of 64-bit shared-memory words.
//!
//! Every word exchanged through the shared parameter and data regions packs
//! two 32-bit values: the low half and the high half. The callers interpret
//! the halves (counter, cycle stamp, or the bit pattern of a 32-bit float);
//! this module only moves bits.

use vstd::prelude::*;

verus! {

/// The 64-bit word whose low half is `lo` and whose high half is `hi`.
pub open spec fn pack64(lo: u32, hi: u32) -> u64 {
    (lo as u64) | ((hi as u64) << 32)
}

/// The low 32 bits of `w`.
pub open spec fn lo32(w: u64) -> u32 {
    (w & 0xffff_ffff) as u32
}

/// The high 32 bits of `w`.
pub open spec fn hi32(w: u64) -> u32 {
    (w >> 32) as u32
}

/// Pack two 32-bit values into one 64-bit word, low half first.
pub fn u32x2_to_u64(low: u32, high: u32) -> (val: u64)
    ensures
        val == pack64(low, high),
{
    let mut val: u64 = low as u64;
    val |= (high as u64) << 32;
    val
}

/// Split a 64-bit word into its low and high 32-bit halves.
pub fn u64_to_u32x2(val: u64) -> (r: (u32, u32))
    ensures
        r.0 == lo32(val),
        r.1 == hi32(val),
{
    let low = (val & 0xffff_ffff) as u32;
    let high = (val >> 32) as u32;
    (low, high)
}

/// Splitting a packed word returns exactly the two halves that went in.
pub proof fn lemma_pack64_round_trip(lo: u32, hi: u32)
    ensures
        lo32(pack64(lo, hi)) == lo,
        hi32(pack64(lo, hi)) == hi,
{
    assert(((lo as u64) | ((hi as u64) << 32)) & 0xffff_ffff == lo as u64) by (bit_vector);
    assert(((lo as u64) | ((hi as u64) << 32)) >> 32 == hi as u64) by (bit_vector);
}

/// Packing the two halves of a word reassembles the word exactly.
pub proof fn lemma_split64_round_trip(w: u64)
    ensures
        pack64(lo32(w), hi32(w)) == w,
{
    assert((((w & 0xffff_ffff) as u32) as u64) | ((((w >> 32) as u32) as u64) << 32) == w)
        by (bit_vector);
}

} // verus!
