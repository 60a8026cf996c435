use vstd::prelude::*;
use bit_field::BitField;

verus! {

/// The value `w.get_bits(lo..hi)` of bit_field for `lo < hi <= 32`: the high
/// bits are shifted out to the left and back, then the low bits to the right.
pub open spec fn field_of(w: u32, lo: u32, hi: u32) -> u32 {
    ((w << (32 - hi) as u32) >> (32 - hi) as u32) >> lo
}

/// Relies on bit_field's `get_bits` for `u32`: it panics unless
/// `start < 32`, `end <= 32` and `start <= end`, and for `start < end`
/// returns `self << (32 - end) >> (32 - end) >> start`.
#[verifier::external_body]
pub(crate) fn word_bits(w: u32, lo: usize, hi: usize) -> (r: u32)
    requires
        lo < hi <= 32,
    ensures
        r == field_of(w, lo as u32, hi as u32),
{
    w.get_bits(lo..hi)
}

/// Relies on bit_field's `get_bit` for `u32`: it panics unless `bit < 32`,
/// and returns `(self & (1 << bit)) != 0`.
#[verifier::external_body]
pub(crate) fn word_bit(w: u32, bit: usize) -> (r: bool)
    requires
        bit < 32,
    ensures
        r == (w & (1u32 << bit as u32) != 0),
{
    w.get_bit(bit)
}

/// Relies on bit_field's `get_bit` for `u16`: it panics unless `bit < 16`,
/// and returns `(self & (1 << bit)) != 0`.
#[verifier::external_body]
pub(crate) fn half_word_bit(v: u16, bit: usize) -> (r: bool)
    requires
        bit < 16,
    ensures
        r == (v & (1u16 << bit as u16) != 0),
{
    v.get_bit(bit)
}

} // verus!
