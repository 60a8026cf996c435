//! Decoding of the 32-bit frame: word assembly, bit fields, sign extension
//! and the fault flags.
use vstd::prelude::*;
use vstd::arithmetic::div_mod::lemma_div_multiples_vanish;
use vstd::arithmetic::power2::{lemma2_to64, pow2};
use vstd::bits::{lemma_u16_pow2_no_overflow, lemma_u16_shl_is_mul};
use crate::bits::{field_of, half_word_bit, word_bit, word_bits};

verus! {

/// The two temperature fields of a frame.
#[derive(Clone, Copy, Debug, PartialEq, Eq, Structural)]
pub enum SensorType {
    /// The thermocouple (hot junction) reading: a 14-bit field.
    HotRefJunction,
    /// The reference (cold junction) reading: a 12-bit field.
    ColdRefJunction,
}

/// How to sign-extend a field: the index of its sign bit, and the shift and
/// divisor that move the sign bit to bit 15 and back.
#[derive(Clone, Copy, Debug, PartialEq, Eq, Structural)]
pub struct Convert {
    /// Index of the sign bit within the field.
    pub bit_num: usize,
    /// Two to the power of `bit_shift`.
    pub divisor: i16,
    /// Distance from the sign bit to bit 15.
    pub bit_shift: u8,
}

/// The conversion of the 14-bit thermocouple field.
pub open spec fn hot_convert() -> Convert {
    Convert { bit_num: 13, divisor: 4, bit_shift: 2 }
}

/// The conversion of the 12-bit reference junction field.
pub open spec fn cold_convert() -> Convert {
    Convert { bit_num: 11, divisor: 16, bit_shift: 4 }
}

/// Number of distinct values of a sensor field: 2 to the 14 for the
/// thermocouple, 2 to the 12 for the reference junction.
pub open spec fn span(t: SensorType) -> int {
    match t {
        SensorType::HotRefJunction => 16384,
        SensorType::ColdRefJunction => 4096,
    }
}

/// Smallest unsigned field value whose sign bit is set.
pub open spec fn half_span(t: SensorType) -> int {
    span(t) / 2
}

/// The value of an unsigned field read as two's complement of the sensor's width.
pub open spec fn signed_field(v: int, t: SensorType) -> int {
    if v >= half_span(t) {
        v - span(t)
    } else {
        v
    }
}

/// Whether `c` converts fields of `w` bits, for a width from 2 to 15: sign
/// bit `w - 1`, shift `16 - w` and divisor `2^(16 - w)`.
pub open spec fn converts_width(c: Convert, w: nat) -> bool {
    &&& 2 <= w <= 15
    &&& c.bit_num == w - 1
    &&& c.bit_shift == 16 - w
    &&& c.divisor as int == pow2((16 - w) as nat)
}

/// The value of a `w`-bit field `v` read as two's complement.
pub open spec fn twos_complement(v: int, w: nat) -> int {
    if v >= pow2((w - 1) as nat) {
        v - pow2(w)
    } else {
        v
    }
}

/// Shifting a `16 - s`-bit field left by `s` puts its sign bit at bit 15:
/// read as `i16`, the result is the field's two's-complement value times `2^s`.
proof fn lemma_shift_into_sign(u: u16, s: u16)
    requires
        1 <= s <= 14,
        u < (1u16 << ((16u16 - s) as u16)),
    ensures
        u & (1u16 << ((15u16 - s) as u16)) != 0 ==> ((u << s) as i16) as int
            == (u as int - (1u16 << ((16u16 - s) as u16)) as int) * (1u16 << s) as int,
        u & (1u16 << ((15u16 - s) as u16)) != 0 ==> u >= (1u16 << ((15u16 - s) as u16)),
        u & (1u16 << ((15u16 - s) as u16)) == 0 ==> u < (1u16 << ((15u16 - s) as u16))
            && (u as i16) as int == u as int,
{
    assert(u & (1u16 << ((15u16 - s) as u16)) != 0 ==> ((u << s) as i16) as int
        == (u as int - (1u16 << ((16u16 - s) as u16)) as int) * (1u16 << s) as int) by (bit_vector)
        requires
            1 <= s <= 14,
            u < (1u16 << ((16u16 - s) as u16)),
    ;
    assert(u & (1u16 << ((15u16 - s) as u16)) != 0 ==> u >= (1u16 << ((15u16 - s) as u16))) by (bit_vector);
    assert(u & (1u16 << ((15u16 - s) as u16)) == 0 ==> u < (1u16 << ((15u16 - s) as u16))
        && (u as i16) as int == u as int) by (bit_vector)
        requires
            1 <= s <= 14,
            u < (1u16 << ((16u16 - s) as u16)),
    ;
}

/// A one shifted left by `n` is two to the power `n`.
proof fn lemma_one_shl(n: u16)
    requires
        n < 16,
    ensures
        (1u16 << n) as int == pow2(n as nat),
{
    lemma_u16_pow2_no_overflow(n as nat);
    lemma_u16_shl_is_mul(1, n);
}

/// Converts an unsigned field to its signed value with the conversion `c`:
/// where the sign bit is set, the field is shifted up to bit 15, read as
/// `i16` and divided back down.
pub fn convert(unsigned_val: u16, c: Convert) -> (r: i16)
    requires
        c.bit_num < 16,
        c.bit_shift < 16,
        c.divisor > 0,
    ensures
        converts_width(c, (c.bit_num + 1) as nat) && (unsigned_val as int) < pow2((c.bit_num + 1) as nat)
            ==> r as int == twos_complement(unsigned_val as int, (c.bit_num + 1) as nat),
        c == hot_convert() && unsigned_val < 16384
            ==> r as int == signed_field(unsigned_val as int, SensorType::HotRefJunction),
        c == cold_convert() && unsigned_val < 4096
            ==> r as int == signed_field(unsigned_val as int, SensorType::ColdRefJunction),
{
    let ghost w = (c.bit_num + 1) as nat;
    let ghost s = c.bit_shift as u16;
    let ghost fits = converts_width(c, w) && (unsigned_val as int) < pow2(w);
    proof {
        lemma2_to64();
        if fits {
            lemma_one_shl((16 - s) as u16);
            lemma_one_shl((15 - s) as u16);
            lemma_one_shl(s);
            lemma_shift_into_sign(unsigned_val, s);
        }
    }
    if half_word_bit(unsigned_val, c.bit_num) {
        let shifted: u16 = unsigned_val << c.bit_shift;
        let r = (#[verifier::truncate] (shifted as i16)) / c.divisor;
        proof {
            if fits {
                assert(c.bit_num as u16 == (15u16 - s) as u16);
                assert(unsigned_val as int >= pow2((w - 1) as nat));
                assert((1u16 << s) as int == c.divisor as int);
                let q = unsigned_val as int - pow2(w);
                assert((shifted as i16) as int == q * c.divisor);
                lemma_div_multiples_vanish(-q, c.divisor as int);
                assert(-(q * c.divisor) == c.divisor * (-q)) by (nonlinear_arith);
            }
        }
        r
    } else {
        proof {
            if fits {
                assert(c.bit_num as u16 == (15u16 - s) as u16);
                assert((unsigned_val as int) < pow2((w - 1) as nat));
            }
        }
        #[verifier::truncate] (unsigned_val as i16)
    }
}

/// Converts an unsigned field of the given sensor to its signed value.
pub fn to_i16(unsigned_val: u16, sensor_type: SensorType) -> (r: i16)
    ensures
        (unsigned_val as int) < span(sensor_type)
            ==> r as int == signed_field(unsigned_val as int, sensor_type),
{
    match sensor_type {
        SensorType::HotRefJunction => convert(unsigned_val, Convert { bit_num: 13, divisor: 4, bit_shift: 2 }),
        SensorType::ColdRefJunction => convert(unsigned_val, Convert { bit_num: 11, divisor: 16, bit_shift: 4 }),
    }
}

/// Sign extension undoes two's complement encoding: a value `v` within the
/// range of a sensor field, written into a field of that width, reads back
/// as `v`.
pub proof fn lemma_sign_extension_round_trip(v: int, t: SensorType)
    requires
        -(span(t) / 2) <= v < span(t) / 2,
    ensures
        0 <= v % span(t) < span(t),
        signed_field(v % span(t), t) == v,
{
    if v < 0 {
        assert((v + span(t)) % span(t) == v % span(t)) by (nonlinear_arith)
            requires span(t) > 0;
        assert(v % span(t) == v + span(t));
    } else {
        assert(v % span(t) == v);
    }
}

/// The 32-bit word of a frame: byte 0 is the most significant.
pub open spec fn frame_word(b: [u8; 4]) -> u32 {
    ((b@[0] as u32) << 24u32) | ((b@[1] as u32) << 16u32) | ((b@[2] as u32) << 8u32) | (b@[3] as u32)
}

/// Whether bit `i` of the word is set.
pub open spec fn flag(w: u32, i: u32) -> bool {
    (w >> i) & 1u32 == 1u32
}

/// The unsigned thermocouple field: bits 18 to 31.
pub open spec fn hot_field(w: u32) -> u32 {
    w >> 18u32
}

/// The unsigned reference junction field: bits 4 to 14.
pub open spec fn cold_field(w: u32) -> u32 {
    (w >> 4u32) & 0x7ffu32
}

/// Decoded, uncalibrated readings of one frame.
#[derive(Clone, Copy, Debug, PartialEq, Eq, Structural)]
pub struct Raw {
    /// Signed thermocouple counts.
    pub temperature: i16,
    /// Signed reference junction counts.
    pub cold_reference: i16,
    /// Fault roll-up: bit 16, which the converter sets whenever any fault
    /// is present.
    pub fault: bool,
    /// Short circuit to Vcc.
    pub scv: bool,
    /// Short circuit to ground.
    pub scg: bool,
    /// Open circuit.
    pub oc: bool,
}

/// What a frame decodes to.
pub open spec fn decoded(b: [u8; 4]) -> Raw {
    let w = frame_word(b);
    Raw {
        temperature: signed_field(hot_field(w) as int, SensorType::HotRefJunction) as i16,
        cold_reference: signed_field(cold_field(w) as int, SensorType::ColdRefJunction) as i16,
        fault: flag(w, 16),
        scv: flag(w, 2),
        scg: flag(w, 1),
        oc: flag(w, 0),
    }
}

/// Assembles the four bytes of a frame into its word, byte 0 first.
pub fn frame_to_word(buffer: [u8; 4]) -> (r: u32)
    ensures
        r == frame_word(buffer),
        r as int == buffer@[0] as int * 0x100_0000 + buffer@[1] as int * 0x1_0000
            + buffer@[2] as int * 0x100 + buffer@[3] as int,
{
    let (b0, b1, b2, b3) = (buffer[0], buffer[1], buffer[2], buffer[3]);
    assert(((b0 as u32) << 24u32) | ((b1 as u32) << 16u32) | ((b2 as u32) << 8u32) | (b3 as u32)
        == b0 as u32 * 0x100_0000u32 + b1 as u32 * 0x1_0000u32 + b2 as u32 * 0x100u32 + b3 as u32)
        by (bit_vector);
    ((b0 as u32) << 24) | ((b1 as u32) << 16) | ((b2 as u32) << 8) | (b3 as u32)
}

/// Decodes a frame: the two sign-extended temperature fields and the fault flags.
pub fn decode(buffer: [u8; 4]) -> (r: Raw)
    ensures
        r == decoded(buffer),
        r.temperature as int == signed_field(hot_field(frame_word(buffer)) as int, SensorType::HotRefJunction),
        r.cold_reference as int == signed_field(cold_field(frame_word(buffer)) as int, SensorType::ColdRefJunction),
{
    let w = frame_to_word(buffer);
    let hot = word_bits(w, 18, 32);
    let cold = word_bits(w, 4, 15);
    assert(field_of(w, 18, 32) == hot_field(w) && hot_field(w) < 16384) by (bit_vector);
    assert(field_of(w, 4, 15) == cold_field(w) && cold_field(w) < 2048) by (bit_vector);
    let fault_bit = word_bit(w, 16);
    let scv = word_bit(w, 2);
    let scg = word_bit(w, 1);
    let oc = word_bit(w, 0);
    assert((w & (1u32 << 16u32) != 0) == flag(w, 16)) by (bit_vector);
    assert((w & (1u32 << 2u32) != 0) == flag(w, 2)) by (bit_vector);
    assert((w & (1u32 << 1u32) != 0) == flag(w, 1)) by (bit_vector);
    assert((w & (1u32 << 0u32) != 0) == flag(w, 0)) by (bit_vector);
    Raw {
        temperature: to_i16(hot as u16, SensorType::HotRefJunction),
        cold_reference: to_i16(cold as u16, SensorType::ColdRefJunction),
        fault: fault_bit,
        scv,
        scg,
        oc,
    }
}

} // verus!
