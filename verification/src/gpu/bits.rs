//! Bit fields of a 32-bit command word, read as numbers.
//!
//! A field that starts at bit `low` and is `width` bits wide holds the number
//! `word / 2^low % 2^width`. The commands are specified with these
//! quotients and remainders, so that what a given word does can be worked
//! out by arithmetic alone.

use vstd::prelude::*;
use vstd::arithmetic::power2::{lemma2_to64, pow2};
use vstd::bits::{lemma_u32_low_bits_mask_is_mod, lemma_u32_shl_is_mul, lemma_u32_shr_is_div};

verus! {

/// Two to the power `n`: the weight of bit `n` of a word.
#[verifier::inline]
pub open spec fn two_to(n: u32) -> int {
    if n == 0 {
        0x1
    } else if n == 1 {
        0x2
    } else if n == 2 {
        0x4
    } else if n == 3 {
        0x8
    } else if n == 4 {
        0x10
    } else if n == 5 {
        0x20
    } else if n == 6 {
        0x40
    } else if n == 7 {
        0x80
    } else if n == 8 {
        0x100
    } else if n == 9 {
        0x200
    } else if n == 10 {
        0x400
    } else if n == 11 {
        0x800
    } else if n == 12 {
        0x1000
    } else if n == 13 {
        0x2000
    } else if n == 14 {
        0x4000
    } else if n == 15 {
        0x8000
    } else if n == 16 {
        0x1_0000
    } else if n == 17 {
        0x2_0000
    } else if n == 18 {
        0x4_0000
    } else if n == 19 {
        0x8_0000
    } else if n == 20 {
        0x10_0000
    } else if n == 21 {
        0x20_0000
    } else if n == 22 {
        0x40_0000
    } else if n == 23 {
        0x80_0000
    } else if n == 24 {
        0x100_0000
    } else if n == 25 {
        0x200_0000
    } else if n == 26 {
        0x400_0000
    } else if n == 27 {
        0x800_0000
    } else if n == 28 {
        0x1000_0000
    } else if n == 29 {
        0x2000_0000
    } else if n == 30 {
        0x4000_0000
    } else if n == 31 {
        0x8000_0000
    } else {
        0x1_0000_0000
    }
}

/// The number that `width` bits of `val` spell, from bit `low` upwards.
#[verifier::inline]
pub open spec fn field(val: u32, low: u32, width: u32) -> int {
    val as int / two_to(low) % two_to(width)
}

/// Whether the bit of `val` that weighs `unit` is set.
pub open spec fn bit(val: u32, unit: u32) -> bool {
    val / unit % 2 == 1
}

/// A flag as the one-bit number that stands for it.
pub open spec fn bit_of(b: bool) -> u32 {
    if b {
        1
    } else {
        0
    }
}

/// The two's complement reading of an 11-bit number.
pub open spec fn signed11(raw: int) -> int {
    if raw < 0x400 {
        raw
    } else {
        raw - 0x800
    }
}

/// The two's complement reading of a 16-bit number.
pub open spec fn signed16(raw: int) -> int {
    if raw < 0x8000 {
        raw
    } else {
        raw - 0x1_0000
    }
}

/// The weights of the bits are the powers of two.
proof fn lemma_two_to_is_pow2(n: u32)
    requires
        n <= 32,
    ensures
        two_to(n) == pow2(n as nat),
{
    lemma2_to64();
}

/// Reads `width` bits of a command word, from bit `low` upwards, by shifting
/// and masking.
pub fn extract(val: u32, low: u32, width: u32) -> (r: u32)
    requires
        1 <= width,
        low + width <= 32,
    ensures
        r == field(val, low, width),
        r < two_to(width),
{
    if width == 32 {
        return val;
    }
    proof {
        lemma_two_to_is_pow2(low);
        lemma_two_to_is_pow2(width);
        lemma_u32_shl_is_mul(1, width);
        lemma_u32_shr_is_div(val, low);
        lemma_u32_low_bits_mask_is_mod(val >> low, width as nat);
    }
    let mask: u32 = (1u32 << width) - 1;
    (val >> low) & mask
}

/// Reads one bit of a command word as a flag.
pub fn test_bit(val: u32, bit: u32) -> (b: bool)
    requires
        bit < 32,
    ensures
        b == (field(val, bit, 1) == 1),
{
    extract(val, bit, 1) != 0
}

/// Turns a flag into the bit that reports it.
pub fn to_bit(b: bool) -> (r: u32)
    ensures
        r == bit_of(b),
{
    if b {
        1
    } else {
        0
    }
}

/// Sign-extends an 11-bit two's complement number to 16 bits, by moving its
/// sign bit to the top and shifting back arithmetically. Bits of `raw` above
/// the eleventh are dropped.
pub fn sign_extend_11(raw: u16) -> (r: i16)
    ensures
        r == signed11(raw as int % 0x800),
{
    let high: u16 = raw << 5;
    let signed: i16 = #[verifier::truncate] (high as i16);
    let r: i16 = signed >> 5;
    assert(r == if raw % 0x800 < 0x400 {
        (raw % 0x800) as int
    } else {
        raw % 0x800 - 0x800
    }) by (bit_vector)
        requires
            high == raw << 5,
            signed == high as i16,
            r == signed >> 5,
    ;
    r
}

/// Reads the low half of a word as a signed 16-bit number.
pub fn low_half_signed(val: u32) -> (r: i16)
    ensures
        r == signed16(val as int % 0x1_0000),
{
    let r: i16 = #[verifier::truncate] (val as i16);
    assert(r == if val % 0x1_0000 < 0x8000 {
        (val % 0x1_0000) as int
    } else {
        val % 0x1_0000 - 0x1_0000
    }) by (bit_vector)
        requires
            r == val as i16,
    ;
    r
}

/// Reads the high half of a word as a signed 16-bit number.
pub fn high_half_signed(val: u32) -> (r: i16)
    ensures
        r == signed16(val as int / 0x1_0000),
{
    let r: i16 = #[verifier::truncate] ((val >> 16) as i16);
    assert(r == if val / 0x1_0000 < 0x8000 {
        (val / 0x1_0000) as int
    } else {
        val / 0x1_0000 - 0x1_0000
    }) by (bit_vector)
        requires
            r == (val >> 16) as i16,
    ;
    r
}

} // verus!
