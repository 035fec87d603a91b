//! The processor status register: one packed byte of flags.
//!
//! Bit layout (bit 5 is unused and merely carried along):
//! bit 0 carry, bit 1 zero, bit 2 interrupt disable, bit 3 decimal,
//! bit 4 break, bit 6 overflow, bit 7 negative.

use vstd::prelude::*;

verus! {

/// Carry flag mask (bit 0).
pub const FLAG_CARRY: u8 = 0x01;

/// Zero flag mask (bit 1).
pub const FLAG_ZERO: u8 = 0x02;

/// Interrupt-disable flag mask (bit 2).
pub const FLAG_INTERRUPT: u8 = 0x04;

/// Decimal flag mask (bit 3).
pub const FLAG_DECIMAL: u8 = 0x08;

/// Break flag mask (bit 4).
pub const FLAG_BREAK: u8 = 0x10;

/// The unused status bit (bit 5).
pub const FLAG_UNUSED: u8 = 0x20;

/// Overflow flag mask (bit 6).
pub const FLAG_OVERFLOW: u8 = 0x40;

/// Negative flag mask (bit 7).
pub const FLAG_NEGATIVE: u8 = 0x80;

/// True when `mask` selects exactly one status bit.
pub open spec fn is_flag_mask(mask: u8) -> bool {
    ||| mask == FLAG_CARRY
    ||| mask == FLAG_ZERO
    ||| mask == FLAG_INTERRUPT
    ||| mask == FLAG_DECIMAL
    ||| mask == FLAG_BREAK
    ||| mask == FLAG_UNUSED
    ||| mask == FLAG_OVERFLOW
    ||| mask == FLAG_NEGATIVE
}

/// The carry flag of a packed status byte.
pub open spec fn carry_set(stat: u8) -> bool {
    stat & FLAG_CARRY == FLAG_CARRY
}

/// The zero flag of a packed status byte.
pub open spec fn zero_set(stat: u8) -> bool {
    stat & FLAG_ZERO == FLAG_ZERO
}

/// The interrupt-disable flag of a packed status byte.
pub open spec fn interrupt_set(stat: u8) -> bool {
    stat & FLAG_INTERRUPT == FLAG_INTERRUPT
}

/// The decimal flag of a packed status byte.
pub open spec fn decimal_set(stat: u8) -> bool {
    stat & FLAG_DECIMAL == FLAG_DECIMAL
}

/// The break flag of a packed status byte.
pub open spec fn break_set(stat: u8) -> bool {
    stat & FLAG_BREAK == FLAG_BREAK
}

/// The overflow flag of a packed status byte.
pub open spec fn overflow_set(stat: u8) -> bool {
    stat & FLAG_OVERFLOW == FLAG_OVERFLOW
}

/// The negative flag of a packed status byte.
pub open spec fn negative_set(stat: u8) -> bool {
    stat & FLAG_NEGATIVE == FLAG_NEGATIVE
}

/// Sets or clears one status bit, leaving every other bit untouched.
///
/// The contract lists each of the eight bits separately, so that callers
/// can track exactly which flags an instruction changed.
pub fn set_flag(stat: u8, mask: u8, on: bool) -> (r: u8)
    requires
        is_flag_mask(mask),
    ensures
        r & 0x01 == (if mask == 0x01 { if on { 0x01u8 } else { 0u8 } } else { stat & 0x01 }),
        r & 0x02 == (if mask == 0x02 { if on { 0x02u8 } else { 0u8 } } else { stat & 0x02 }),
        r & 0x04 == (if mask == 0x04 { if on { 0x04u8 } else { 0u8 } } else { stat & 0x04 }),
        r & 0x08 == (if mask == 0x08 { if on { 0x08u8 } else { 0u8 } } else { stat & 0x08 }),
        r & 0x10 == (if mask == 0x10 { if on { 0x10u8 } else { 0u8 } } else { stat & 0x10 }),
        r & 0x20 == (if mask == 0x20 { if on { 0x20u8 } else { 0u8 } } else { stat & 0x20 }),
        r & 0x40 == (if mask == 0x40 { if on { 0x40u8 } else { 0u8 } } else { stat & 0x40 }),
        r & 0x80 == (if mask == 0x80 { if on { 0x80u8 } else { 0u8 } } else { stat & 0x80 }),
{
    let r = if on {
        stat | mask
    } else {
        stat & !mask
    };
    proof {
        lemma_set_flag_bits(stat, mask, on, r);
    }
    r
}

/// One status bit set or cleared by a mask changes no other bit.
proof fn lemma_set_flag_bits(stat: u8, mask: u8, on: bool, r: u8)
    requires
        is_flag_mask(mask),
        on ==> r == (stat | mask),
        !on ==> r == (stat & !mask),
    ensures
        r & 0x01 == (if mask == 0x01 { if on { 0x01u8 } else { 0u8 } } else { stat & 0x01 }),
        r & 0x02 == (if mask == 0x02 { if on { 0x02u8 } else { 0u8 } } else { stat & 0x02 }),
        r & 0x04 == (if mask == 0x04 { if on { 0x04u8 } else { 0u8 } } else { stat & 0x04 }),
        r & 0x08 == (if mask == 0x08 { if on { 0x08u8 } else { 0u8 } } else { stat & 0x08 }),
        r & 0x10 == (if mask == 0x10 { if on { 0x10u8 } else { 0u8 } } else { stat & 0x10 }),
        r & 0x20 == (if mask == 0x20 { if on { 0x20u8 } else { 0u8 } } else { stat & 0x20 }),
        r & 0x40 == (if mask == 0x40 { if on { 0x40u8 } else { 0u8 } } else { stat & 0x40 }),
        r & 0x80 == (if mask == 0x80 { if on { 0x80u8 } else { 0u8 } } else { stat & 0x80 }),
{
    assert((mask == 1 || mask == 2 || mask == 4 || mask == 8 || mask == 0x10 || mask == 0x20
        || mask == 0x40 || mask == 0x80) && (on ==> r == (stat | mask)) && (!on ==> r == (stat
        & !mask)) ==> (r & 0x01 == (if mask == 0x01 {
        if on {
            0x01u8
        } else {
            0u8
        }
    } else {
        stat & 0x01
    }) && r & 0x02 == (if mask == 0x02 {
        if on {
            0x02u8
        } else {
            0u8
        }
    } else {
        stat & 0x02
    }) && r & 0x04 == (if mask == 0x04 {
        if on {
            0x04u8
        } else {
            0u8
        }
    } else {
        stat & 0x04
    }) && r & 0x08 == (if mask == 0x08 {
        if on {
            0x08u8
        } else {
            0u8
        }
    } else {
        stat & 0x08
    }) && r & 0x10 == (if mask == 0x10 {
        if on {
            0x10u8
        } else {
            0u8
        }
    } else {
        stat & 0x10
    }) && r & 0x20 == (if mask == 0x20 {
        if on {
            0x20u8
        } else {
            0u8
        }
    } else {
        stat & 0x20
    }) && r & 0x40 == (if mask == 0x40 {
        if on {
            0x40u8
        } else {
            0u8
        }
    } else {
        stat & 0x40
    }) && r & 0x80 == (if mask == 0x80 {
        if on {
            0x80u8
        } else {
            0u8
        }
    } else {
        stat & 0x80
    }))) by (bit_vector);
}

} // verus!
