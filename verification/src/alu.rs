//! What the arithmetic and logic unit computes, stated over numbers, and
//! how the bit operations of the implementation relate to it.
use vstd::prelude::*;

verus! {

/// A byte read as a two's-complement number.
pub open spec fn signed(v: u8) -> int {
    if v >= 0x80 {
        v - 256
    } else {
        v as int
    }
}

/// A carry as a number.
pub open spec fn carry_value(carry: bool) -> int {
    if carry {
        1
    } else {
        0
    }
}

/// Bit 7 of a byte, the sign.
pub open spec fn top_bit(v: u8) -> bool {
    v >= 0x80
}

/// Bit 6 of a byte.
pub open spec fn sixth_bit(v: u8) -> bool {
    (v / 64) % 2 == 1
}

/// Bit 0 of a byte.
pub open spec fn low_bit(v: u8) -> bool {
    v % 2 == 1
}

/// The byte that an addition with carry leaves in the accumulator.
pub open spec fn adc_value(a: u8, m: u8, carry: bool) -> u8 {
    ((a + m + carry_value(carry)) % 256) as u8
}

/// The carry out of an addition with carry.
pub open spec fn adc_carry(a: u8, m: u8, carry: bool) -> bool {
    a + m + carry_value(carry) > 255
}

/// Whether an addition with carry leaves the range of a signed byte.
pub open spec fn adc_overflow(a: u8, m: u8, carry: bool) -> bool {
    let sum = signed(a) + signed(m) + carry_value(carry);
    sum < -128 || sum > 127
}

/// The one's complement of a byte.
pub open spec fn complement(m: u8) -> u8 {
    (255 - m) as u8
}

/// A byte plus one, modulo 256.
pub open spec fn inc_value(v: u8) -> u8 {
    ((v + 1) % 256) as u8
}

/// A byte minus one, modulo 256.
pub open spec fn dec_value(v: u8) -> u8 {
    ((v - 1) % 256) as u8
}

/// The difference of two bytes, modulo 256.
pub open spec fn diff_value(a: u8, m: u8) -> u8 {
    ((a - m) % 256) as u8
}

/// A byte shifted left by one; bit 7 falls out.
pub open spec fn shl_value(v: u8) -> u8 {
    ((v * 2) % 256) as u8
}

/// A byte shifted right by one; bit 0 falls out.
pub open spec fn shr_value(v: u8) -> u8 {
    v / 2
}

/// A byte rotated left through the carry: the carry enters at bit 0.
pub open spec fn rol_value(v: u8, carry: bool) -> u8 {
    ((v * 2) % 256 + carry_value(carry)) as u8
}

/// A byte rotated right through the carry: the carry enters at bit 7.
pub open spec fn ror_value(v: u8, carry: bool) -> u8 {
    (v / 2 + 128 * carry_value(carry)) as u8
}

/// The 16-bit word with low byte `lo` and high byte `hi`.
pub open spec fn word(lo: u8, hi: u8) -> u16 {
    (hi * 256 + lo) as u16
}

pub open spec fn low_byte(w: u16) -> u8 {
    (w % 256) as u8
}

pub open spec fn high_byte(w: u16) -> u8 {
    (w / 256) as u8
}

/// An address plus `n`, modulo 65536.
pub open spec fn addr_add(addr: u16, n: int) -> u16 {
    ((addr + n) % 0x1_0000) as u16
}

/// A zero-page address plus `n`, modulo 256.
pub open spec fn zp_add(base: u8, n: int) -> u8 {
    ((base + n) % 256) as u8
}

/// Where a taken branch goes: the byte after the displacement, plus the
/// displacement read as a signed number.
pub open spec fn branch_target(pc: u16, displacement: u8) -> u16 {
    addr_add(pc, 1 + signed(displacement))
}

/// Wrapping addition of bytes is addition modulo 256.
pub proof fn lemma_wrapping_u8(a: u8, b: u8)
    ensures
        a.wrapping_add(b) == zp_add(a, b as int),
        a.wrapping_add(1) == inc_value(a),
        a.wrapping_sub(1) == dec_value(a),
        a.wrapping_sub(b) == diff_value(a, b),
{
}

/// Wrapping addition of addresses is addition modulo 65536.
pub proof fn lemma_wrapping_u16(a: u16, b: u16)
    ensures
        a.wrapping_add(b) == addr_add(a, b as int),
{
}

/// The tests of single bits, in numbers.
pub proof fn lemma_bit_tests(v: u8)
    by (bit_vector)
    ensures
        (v & 0x80 != 0) == (v >= 0x80),
        (v >> 7 == 1) == (v >= 0x80),
        (v & 1 == 1) == (v % 2 == 1),
        (v & 0x40 != 0) == ((v / 64) % 2 == 1),
{
}

/// A shift to the left doubles modulo 256, and leaves bit 0 free.
pub proof fn lemma_shift_left(v: u8)
    by (bit_vector)
    ensures
        v << 1 == (v * 2) % 256,
        (v << 1) | 1 == (v * 2) % 256 + 1,
{
}

/// A shift to the right halves, and leaves bit 7 free; flipping all bits
/// subtracts from 255.
pub proof fn lemma_shift_right(v: u8)
    by (bit_vector)
    ensures
        v >> 1 == v / 2,
        (v >> 1) | 0x80 == v / 2 + 128,
        v ^ 0xff == 255 - v,
{
}

/// The overflow test on sign bits: operand and accumulator agree in sign
/// and the result does not.
pub proof fn lemma_overflow_bits(a: u8, m: u8, r: u8)
    by (bit_vector)
    ensures
        ((m ^ r) & (r ^ a) & 0x80 != 0) == ((a >= 0x80) == (m >= 0x80) && (r >= 0x80) != (a
            >= 0x80)),
{
}

/// Two bytes joined into a word.
pub proof fn lemma_word_join(lo: u8, hi: u8)
    by (bit_vector)
    ensures
        ((hi as u16) << 8) | (lo as u16) == hi * 256 + lo,
{
}

/// A word taken apart, and the masks that the address decoder uses.
pub proof fn lemma_word_masks(w: u16)
    by (bit_vector)
    ensures
        w >> 8 == w / 256,
        w & 0xff == w % 256,
        w & 0x00FF == w % 256,
        w & 0xFF00 == (w / 256) * 256,
        w & 0x07FF == w % 0x800,
        0x2000 <= w < 0x4000 ==> w & 0x2007 == 0x2000 + w % 8,
{
}

} // verus!
