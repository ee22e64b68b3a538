//! Bit-level helpers the decoder and ALU are built from: 4-bit two's-complement
//! sign extension and a sign-preserving (arithmetic) shift right by one.

use vstd::prelude::*;

verus! {

/// The signed value an 8-bit byte stands for in two's complement.
pub open spec fn as_signed(x: u8) -> int {
    if x < 128 {
        x as int
    } else {
        x - 256
    }
}

/// Widen a 4-bit two's-complement value to 8 bits.
pub open spec fn spec_sign_extend4(b: u8) -> u8
    recommends
        b < 16,
{
    if b & 0x8 == 0 {
        b
    } else {
        b | 0xF0
    }
}

/// Arithmetic shift right by one: the top (sign) bit is kept.
pub open spec fn spec_asr1(x: u8) -> u8 {
    (x >> 1) | (x & 0x80)
}

pub fn sign_extend4(b: u8) -> (r: u8)
    ensures
        r == spec_sign_extend4(b),
{
    if b & 0x8 == 0 {
        b
    } else {
        b | 0xF0
    }
}

pub fn asr1(x: u8) -> (r: u8)
    ensures
        r == spec_asr1(x),
{
    (x >> 1) | (x & 0x80)
}

/// Sign extension preserves the 4-bit value: a nibble below 8 is unchanged,
/// one at or above 8 gains the high four bits, i.e. 240.
pub proof fn lemma_sign_extend4_value(b: u8)
    by (bit_vector)
    requires
        b < 16,
    ensures
        b < 8 ==> spec_sign_extend4(b) == b,
        b >= 8 ==> spec_sign_extend4(b) == b + 240,
{
}

/// The arithmetic shift halves the unsigned value of a byte below 128 and
/// keeps a byte at or above 128 in the upper half.
pub proof fn lemma_asr1_value(x: u8)
    by (bit_vector)
    ensures
        x < 128 ==> spec_asr1(x) == x / 2,
        x >= 128 ==> spec_asr1(x) == 128 + x / 2,
{
}

/// Read as two's-complement numbers, the arithmetic shift divides by two,
/// rounding toward negative infinity.
pub proof fn lemma_asr1_signed(x: u8)
    ensures
        as_signed(spec_asr1(x)) == as_signed(x) / 2,
{
    lemma_asr1_value(x);
    if x < 128 {
        assert(as_signed(spec_asr1(x)) == x / 2);
    } else {
        assert(spec_asr1(x) == 128 + x / 2);
        assert(as_signed(spec_asr1(x)) == 128 + x / 2 - 256);
        assert((x - 256) / 2 == 128 + x / 2 - 256) by {
            assert(x / 2 == (x - 256) / 2 + 128) by (nonlinear_arith)
                requires
                    128 <= x < 256,
            ;
        }
    }
}

} // verus!
