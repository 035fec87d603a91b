//! Wrapping arithmetic on the processor's 8-bit and 16-bit registers.
//!
//! All register arithmetic wraps silently, mirroring the hardware; these
//! helpers state that behavior once so every instruction contract can
//! reuse the same definitions.

use vstd::arithmetic::div_mod::{lemma_add_mod_noop, lemma_mod_multiples_vanish, lemma_small_mod};
use vstd::prelude::*;

verus! {

/// 16-bit addition, wrapping past `0xFFFF`.
pub open spec fn add16(a: u16, b: u16) -> u16 {
    ((a + b) % 0x10000) as u16
}

/// 8-bit addition, wrapping past `0xFF`.
pub open spec fn wrap8(a: u8, b: u8) -> u8 {
    ((a + b) % 0x100) as u8
}

/// 8-bit subtraction, wrapping below zero.
pub open spec fn sub8(a: u8, b: u8) -> u8 {
    ((a - b) % 0x100) as u8
}

/// The 16-bit value with low byte `lo` and high byte `hi`.
pub open spec fn word(lo: u8, hi: u8) -> u16 {
    (hi * 0x100 + lo) as u16
}

/// The low byte of a 16-bit value.
pub open spec fn lo_byte(w: u16) -> u8 {
    (w % 0x100) as u8
}

/// The high byte of a 16-bit value.
pub open spec fn hi_byte(w: u16) -> u8 {
    (w / 0x100) as u8
}

/// A byte read as a two's-complement signed offset.
pub open spec fn to_signed(b: u8) -> int {
    if b < 0x80 {
        b as int
    } else {
        b - 0x100
    }
}

/// Where a branch lands: the instruction's two bytes plus the signed
/// offset, wrapping around the 16-bit program counter.
pub open spec fn branch_dest(pc: u16, offset: u8) -> u16 {
    ((pc + 2 + to_signed(offset)) % 0x10000) as u16
}

/// 16-bit wrapping addition.
pub fn wrapping_add16(a: u16, b: u16) -> (r: u16)
    ensures
        r == add16(a, b),
{
    (((a as u32) + (b as u32)) % 0x10000) as u16
}

/// 8-bit wrapping addition.
pub fn wrapping_add8(a: u8, b: u8) -> (r: u8)
    ensures
        r == wrap8(a, b),
{
    (((a as u16) + (b as u16)) % 0x100) as u8
}

/// 8-bit wrapping subtraction.
pub fn wrapping_sub8(a: u8, b: u8) -> (r: u8)
    ensures
        r == sub8(a, b),
{
    proof {
        lemma_mod_multiples_vanish(1, a - b, 0x100);
    }
    (((a as u16) + 0x100 - (b as u16)) % 0x100) as u8
}

/// Splits a 16-bit value into its low and high bytes.
pub fn split_word(w: u16) -> (r: (u8, u8))
    ensures
        r.0 == lo_byte(w),
        r.1 == hi_byte(w),
{
    ((w % 0x100) as u8, (w / 0x100) as u8)
}

/// Joins a low and a high byte into a 16-bit value.
pub fn make_word(lo: u8, hi: u8) -> (r: u16)
    ensures
        r == word(lo, hi),
{
    (hi as u16) * 0x100 + (lo as u16)
}

/// Computes where a branch at `pc` with signed offset `offset` lands.
pub fn branch_target(pc: u16, offset: i8) -> (r: u16)
    ensures
        r as int == (pc + 2 + offset) % 0x10000,
{
    proof {
        lemma_mod_multiples_vanish(1, pc + 2 + offset, 0x10000);
    }
    let t: i32 = (pc as i32) + 2 + (offset as i32) + 0x10000;
    (t % 0x10000) as u16
}


/// The accumulator after ADC: the 8-bit wrapping sum of accumulator,
/// operand and carry-in.
pub open spec fn adc_value(a: u8, m: u8, carry: bool) -> u8 {
    ((a + m + (if carry {
        1int
    } else {
        0int
    })) % 0x100) as u8
}

/// The carry out of ADC: whether the full sum exceeds eight bits.
pub open spec fn adc_carry(a: u8, m: u8, carry: bool) -> bool {
    a + m + (if carry {
        1int
    } else {
        0int
    }) > 0xFF
}

/// The accumulator after SBC: the 8-bit wrapping difference of
/// accumulator, operand and borrow (the inverted carry-in).
pub open spec fn sbc_value(a: u8, m: u8, carry: bool) -> u8 {
    ((a - m - (if carry {
        0int
    } else {
        1int
    })) % 0x100) as u8
}

/// The carry out of SBC: set exactly when no borrow was needed.
pub open spec fn sbc_carry(a: u8, m: u8, carry: bool) -> bool {
    a - m - (if carry {
        0int
    } else {
        1int
    }) >= 0
}

/// Adding an operand with ADC and then subtracting it with SBC, with
/// ADC's carry-out fed back in as SBC's carry-in, restores the
/// accumulator whenever that carry-out disagrees with the original
/// carry-in.  When the two agree, the borrow convention shifts the
/// result by one, as with accumulator 5, operand 3 and carry clear.
pub proof fn lemma_adc_sbc_roundtrip(a: u8, m: u8, c: bool)
    requires
        c != adc_carry(a, m, c),
    ensures
        sbc_value(adc_value(a, m, c), m, adc_carry(a, m, c)) == a,
{
    let cin: int = if c {
        1
    } else {
        0
    };
    let s = a + m + cin;
    if s > 0xFF {
        // The sum wrapped, so the carry out is set and, by the
        // requirement, the carry in was clear.
        lemma_mod_multiples_vanish(1, s - 0x100, 0x100);
        lemma_small_mod((s - 0x100) as nat, 0x100);
        assert(adc_value(a, m, c) == s - 0x100);
        lemma_mod_multiples_vanish(-1, a as int, 0x100);
        lemma_small_mod(a as nat, 0x100);
    } else {
        lemma_small_mod(s as nat, 0x100);
        assert(adc_value(a, m, c) == s);
        lemma_small_mod(a as nat, 0x100);
    }
}

/// Wrapping 8-bit steps compose: stepping up by `j` after stepping
/// down by `k` is stepping down by `k - j`.
pub proof fn lemma_wrap8_of_sub8(a: u8, k: u8, j: u8)
    requires
        j <= k,
    ensures
        wrap8(sub8(a, k), j) == sub8(a, (k - j) as u8),
{
    lemma_small_mod(j as nat, 0x100);
    lemma_add_mod_noop(a - k, j as int, 0x100);
}

/// Stepping down by nothing changes nothing.
pub proof fn lemma_sub8_zero(a: u8)
    ensures
        sub8(a, 0) == a,
{
    lemma_small_mod(a as nat, 0x100);
}

/// 16-bit wrapping additions compose.
pub proof fn lemma_add16_assoc(a: u16, j: u16, k: u16)
    requires
        j + k <= 0xFFFF,
    ensures
        add16(add16(a, j), k) == add16(a, (j + k) as u16),
{
    lemma_small_mod(k as nat, 0x10000);
    lemma_add_mod_noop(a + j, k as int, 0x10000);
}

} // verus!
