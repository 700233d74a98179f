//! Single-bit and multi-bit field access within 32-bit register words.
//!
//! Every peripheral register in this crate is a plain `u32`. The helpers here
//! read and update individual bits and contiguous bit fields, and the lemmas
//! relate an update at one position to reads at any position, so that driver
//! code can show which fields a register write changes and which it preserves.

use vstd::prelude::*;

verus! {

/// True if bit `i` of `bits` is set.
pub open spec fn bit_is(bits: u32, i: u32) -> bool {
    (bits >> i) & 1 == 1
}

/// `bits` with bit `i` forced to `value`.
pub open spec fn spec_set_bit(bits: u32, i: u32, value: bool) -> u32 {
    if value {
        bits | (1u32 << i)
    } else {
        bits & !(1u32 << i)
    }
}

/// The field of `bits` that starts at bit `off` and is selected by `mask`
/// (a right-aligned mask such as `0x7` for a three-bit field).
pub open spec fn spec_get_field(bits: u32, off: u32, mask: u32) -> u32 {
    (bits >> off) & mask
}

/// `bits` with the field at `off` selected by `mask` replaced by `value & mask`.
pub open spec fn spec_set_field(bits: u32, off: u32, mask: u32, value: u32) -> u32 {
    (bits & !(mask << off)) | ((value & mask) << off)
}

/// Reading any bit of a word after a single-bit update: position `i` now holds
/// `value` and every other position is unchanged.
pub proof fn lemma_set_bit(bits: u32, i: u32, value: bool, j: u32)
    by (bit_vector)
    requires
        i < 32,
        j < 32,
    ensures
        bit_is(spec_set_bit(bits, i, value), j) == if i == j {
            value
        } else {
            bit_is(bits, j)
        },
{
}

/// Reads bit `i` of `bits`.
pub fn get_bit(bits: u32, i: u32) -> (r: bool)
    requires
        i < 32,
    ensures
        r == bit_is(bits, i),
{
    (bits >> i) & 1 == 1
}

/// Returns `bits` with bit `i` forced to `value`.
pub fn set_bit(bits: u32, i: u32, value: bool) -> (r: u32)
    requires
        i < 32,
    ensures
        r == spec_set_bit(bits, i, value),
{
    if value {
        bits | (1u32 << i)
    } else {
        bits & !(1u32 << i)
    }
}

/// Reads the field of `bits` at `off` selected by `mask`.
pub fn get_field(bits: u32, off: u32, mask: u32) -> (r: u32)
    requires
        off < 32,
    ensures
        r == spec_get_field(bits, off, mask),
{
    (bits >> off) & mask
}

/// Returns `bits` with the field at `off` selected by `mask` replaced by
/// `value & mask`.
pub fn set_field(bits: u32, off: u32, mask: u32, value: u32) -> (r: u32)
    requires
        off < 32,
    ensures
        r == spec_set_field(bits, off, mask, value),
{
    (bits & !(mask << off)) | ((value & mask) << off)
}

} // verus!
