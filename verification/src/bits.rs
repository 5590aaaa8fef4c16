//! Facts about masks and shifts that the default solver does not know.

use vstd::prelude::*;

verus! {

/// Masking a 16-bit value never makes it larger than the mask or the value.
pub proof fn lemma_mask_bound_u16(x: u16, m: u16)
    by (bit_vector)
    ensures
        x & m <= m,
        x & m <= x,
{
}

/// Masking an 8-bit value never makes it larger than the mask or the value.
pub proof fn lemma_mask_bound_u8(x: u8, m: u8)
    by (bit_vector)
    ensures
        x & m <= m,
        x & m <= x,
{
}

/// Whether the bit of a given weight (1, 2, 4, ...) is set in a number.
pub open spec fn bit(x: int, weight: int) -> bool {
    (x / weight) % 2 == 1
}

/// Testing a bit with a mask is testing it by division, and masking the
/// low bits is taking a remainder.
pub proof fn lemma_bits_u8(x: u8)
    by (bit_vector)
    ensures
        (x & 0x01 != 0) == ((x / 1) % 2 == 1),
        (x & 0x02 != 0) == ((x / 2) % 2 == 1),
        (x & 0x04 != 0) == ((x / 4) % 2 == 1),
        (x & 0x08 != 0) == ((x / 8) % 2 == 1),
        (x & 0x10 != 0) == ((x / 16) % 2 == 1),
        (x & 0x20 != 0) == ((x / 32) % 2 == 1),
        (x & 0x40 != 0) == ((x / 64) % 2 == 1),
        (x & 0x80 != 0) == ((x / 128) % 2 == 1),
        (x & 0x80 != 0) == (x >= 128),
        x & 0x01 == x % 2,
        x & 0x03 == x % 4,
        x & 0x07 == x % 8,
        x & 0x0F == x % 16,
        x & 0x1F == x % 32,
        x & 0x3F == x % 64,
        x & 0x7F == x % 128,
        x & 0xFE == x - x % 2,
        x & 0xF0 == x - x % 16,
        x >> 1 == x / 2,
        x >> 2 == x / 4,
        x >> 3 == x / 8,
        x >> 4 == x / 16,
        x >> 5 == x / 32,
        x >> 6 == x / 64,
        x >> 7 == x / 128,
{
}

/// Masking the low bits of a 16-bit number is taking a remainder, and
/// shifting right is dividing.
pub proof fn lemma_bits_u16(x: u16)
    by (bit_vector)
    ensures
        x & 0x0001 == x % 2,
        x & 0x0007 == x % 8,
        x & 0x001F == x % 32,
        x & 0x00FF == x % 0x100,
        x & 0x03FF == x % 0x400,
        x & 0x07FF == x % 0x800,
        x & 0x0FFF == x % 0x1000,
        x & 0x1FFF == x % 0x2000,
        x & 0x3FFF == x % 0x4000,
        x & 0x7FFF == x % 0x8000,
        x & 0x6000 == ((x / 0x2000) % 4) * 0x2000,
        x & 0xFF00 == x - x % 0x100,
        x >> 8 == x / 0x100,
        x >> 10 == x / 0x400,
        x >> 12 == x / 0x1000,
        x >> 5 == x / 32,
{
}

/// Whether a number is the weight of one bit of a byte.
pub open spec fn is_weight(w: int) -> bool {
    w == 1 || w == 2 || w == 4 || w == 8 || w == 16 || w == 32 || w == 64 || w == 128
}

/// A byte with the bit of a given weight set.
pub open spec fn with_bit(x: u8, weight: int) -> u8 {
    if bit(x as int, weight) {
        x
    } else {
        (x + weight) as u8
    }
}

/// A byte with the bit of a given weight cleared.
pub open spec fn without_bit(x: u8, weight: int) -> u8 {
    if bit(x as int, weight) {
        (x - weight) as u8
    } else {
        x
    }
}

/// Setting a bit with OR adds its weight unless it is set, and clearing it
/// with AND NOT takes its weight away if it is.
pub proof fn lemma_set_clear_u8(x: u8, w: u8)
    by (bit_vector)
    requires
        w == 1 || w == 2 || w == 4 || w == 8 || w == 16 || w == 32 || w == 64 || w == 128,
    ensures
        (x & w != 0) == ((x / w) % 2 == 1),
        (x / w) % 2 == 1 ==> x | w == x,
        (x / w) % 2 == 1 ==> x & !w == x - w,
        (x / w) % 2 != 1 ==> x | w == x + w,
        (x / w) % 2 != 1 ==> x & !w == x,
        (x / w) % 2 == 1 ==> x >= w,
        (x / w) % 2 != 1 ==> x + w <= 255,
{
}

/// Shifting a byte left by one doubles it, dropping what passes 255.
pub proof fn lemma_shl_u8(x: u8)
    by (bit_vector)
    ensures
        x << 1 == (x % 128) * 2,
        (x & 0x01u8) << 7 == (x % 2) * 128,
        (x & 0x03u8) << 2 == (x % 4) * 4,
        (x & 0x01u8) << 4 == (x % 2) * 16,
{
}

/// A word is its high byte times 256 plus its low byte.
pub proof fn lemma_word(lo: u8, hi: u8)
    by (bit_vector)
    ensures
        ((hi as u16) << 8) | lo as u16 == hi * 256 + lo,
        0x0100u16 | lo as u16 == 0x0100 + lo,
{
}

} // verus!
