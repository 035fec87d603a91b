//! The meaning of each instruction: one relation per mnemonic between
//! the state before and the state after the instruction runs.
//!
//! Every relation pins down each register, all eight status bits and the
//! whole memory, so a handler that satisfies its relation reproduces the
//! documented behavior bit for bit.  Flags an instruction does not
//! define are stated unchanged.

use crate::addressing::{
    spec_absolute, spec_addr_by_mode, spec_indirect, spec_operand, spec_value_by_mode,
};
use crate::arith::{add16, adc_carry, adc_value, branch_dest, hi_byte, lo_byte, sbc_carry, sbc_value, sub8, word, wrap8};
use crate::status::{carry_set, negative_set, overflow_set, zero_set};
use crate::system::{spec_mem, Core};
use crate::table::{
    adc_mode, and_mode, asl_mode, bit_mode, cmp_mode, cpx_mode, cpy_mode, dec_mode, eor_mode,
    inc_mode, lda_mode, ldx_mode, ldy_mode, lsr_mode, mode_len, ora_mode, rol_mode, ror_mode,
    sbc_mode, sta_mode, stx_mode, sty_mode, Mnemonic, Mode,
};
use vstd::prelude::*;

verus! {

/// The transient decode fields, which only the driver writes.
pub open spec fn transients_kept(pre: Core, post: Core) -> bool {
    &&& post.ir == pre.ir
    &&& post.decoded == pre.decoded
    &&& post.info == pre.info
}

/// The index registers and the stack pointer.
pub open spec fn xy_sp_kept(pre: Core, post: Core) -> bool {
    &&& post.ix == pre.ix
    &&& post.iy == pre.iy
    &&& post.sp == pre.sp
}

/// The interrupt-disable, decimal, break and unused status bits.
pub open spec fn idbu_kept(a: u8, b: u8) -> bool {
    &&& b & 0x04 == a & 0x04
    &&& b & 0x08 == a & 0x08
    &&& b & 0x10 == a & 0x10
    &&& b & 0x20 == a & 0x20
}

/// The carry and overflow status bits.
pub open spec fn cv_kept(a: u8, b: u8) -> bool {
    &&& b & 0x01 == a & 0x01
    &&& b & 0x40 == a & 0x40
}

/// The zero and negative bits of `st` reflect the value `v`.
pub open spec fn nz_bits(st: u8, v: u8) -> bool {
    &&& st & 0x02 == (if v == 0 {
        0x02u8
    } else {
        0u8
    })
    &&& st & 0x80 == (if v >= 0x80 {
        0x80u8
    } else {
        0u8
    })
}

/// The carry bit of `st` is exactly `on`.
pub open spec fn c_bit(st: u8, on: bool) -> bool {
    st & 0x01 == (if on {
        0x01u8
    } else {
        0u8
    })
}

/// The overflow bit of `st` is exactly `on`.
pub open spec fn v_bit(st: u8, on: bool) -> bool {
    st & 0x40 == (if on {
        0x40u8
    } else {
        0u8
    })
}

/// ADC: the accumulator gains the operand plus the carry; carry, zero,
/// negative and signed overflow reflect the 8-bit wrapping sum.
pub open spec fn adc_rel(pre: Core, post: Core) -> bool {
    let mode = adc_mode(pre.ir);
    let m = spec_value_by_mode(pre, mode);
    let r = adc_value(pre.acc, m, carry_set(pre.stat));
    &&& post.acc == r
    &&& c_bit(post.stat, adc_carry(pre.acc, m, carry_set(pre.stat)))
    &&& nz_bits(post.stat, r)
    &&& v_bit(post.stat, (pre.acc >= 0x80) == (m >= 0x80) && ((pre.acc >= 0x80) != (r >= 0x80)))
    &&& idbu_kept(pre.stat, post.stat)
    &&& post.pc == add16(pre.pc, mode_len(mode))
    &&& xy_sp_kept(pre, post)
    &&& post.memory == pre.memory
    &&& transients_kept(pre, post)
}

/// SBC: the accumulator loses the operand and the borrow (the inverted
/// carry); carry reports that no borrow was needed.
pub open spec fn sbc_rel(pre: Core, post: Core) -> bool {
    let mode = sbc_mode(pre.ir);
    let m = spec_value_by_mode(pre, mode);
    let r = sbc_value(pre.acc, m, carry_set(pre.stat));
    &&& post.acc == r
    &&& c_bit(post.stat, sbc_carry(pre.acc, m, carry_set(pre.stat)))
    &&& nz_bits(post.stat, r)
    &&& v_bit(post.stat, (pre.acc >= 0x80) != (m >= 0x80) && ((pre.acc >= 0x80) != (r >= 0x80)))
    &&& idbu_kept(pre.stat, post.stat)
    &&& post.pc == add16(pre.pc, mode_len(mode))
    &&& xy_sp_kept(pre, post)
    &&& post.memory == pre.memory
    &&& transients_kept(pre, post)
}

/// AND: bitwise conjunction into the accumulator.
pub open spec fn and_rel(pre: Core, post: Core) -> bool {
    let mode = and_mode(pre.ir);
    let m = spec_value_by_mode(pre, mode);
    let r = pre.acc & m;
    &&& post.acc == r
    &&& nz_bits(post.stat, r)
    &&& cv_kept(pre.stat, post.stat)
    &&& idbu_kept(pre.stat, post.stat)
    &&& post.pc == add16(pre.pc, mode_len(mode))
    &&& xy_sp_kept(pre, post)
    &&& post.memory == pre.memory
    &&& transients_kept(pre, post)
}

/// ORA: bitwise disjunction into the accumulator.
pub open spec fn ora_rel(pre: Core, post: Core) -> bool {
    let mode = ora_mode(pre.ir);
    let m = spec_value_by_mode(pre, mode);
    let r = pre.acc | m;
    &&& post.acc == r
    &&& nz_bits(post.stat, r)
    &&& cv_kept(pre.stat, post.stat)
    &&& idbu_kept(pre.stat, post.stat)
    &&& post.pc == add16(pre.pc, mode_len(mode))
    &&& xy_sp_kept(pre, post)
    &&& post.memory == pre.memory
    &&& transients_kept(pre, post)
}

/// EOR: bitwise exclusive or into the accumulator.
pub open spec fn eor_rel(pre: Core, post: Core) -> bool {
    let mode = eor_mode(pre.ir);
    let m = spec_value_by_mode(pre, mode);
    let r = pre.acc ^ m;
    &&& post.acc == r
    &&& nz_bits(post.stat, r)
    &&& cv_kept(pre.stat, post.stat)
    &&& idbu_kept(pre.stat, post.stat)
    &&& post.pc == add16(pre.pc, mode_len(mode))
    &&& xy_sp_kept(pre, post)
    &&& post.memory == pre.memory
    &&& transients_kept(pre, post)
}

/// BIT: tests the operand against the accumulator without changing any
/// register; negative and overflow copy the operand's top two bits.
pub open spec fn bit_rel(pre: Core, post: Core) -> bool {
    let mode = bit_mode(pre.ir);
    let m = spec_value_by_mode(pre, mode);
    &&& post.acc == pre.acc
    &&& post.stat & 0x02 == (if pre.acc & m == 0 {
        0x02u8
    } else {
        0u8
    })
    &&& post.stat & 0x80 == (if m & 0x80 == 0x80 {
        0x80u8
    } else {
        0u8
    })
    &&& post.stat & 0x40 == (if m & 0x40 == 0x40 {
        0x40u8
    } else {
        0u8
    })
    &&& post.stat & 0x01 == pre.stat & 0x01
    &&& idbu_kept(pre.stat, post.stat)
    &&& post.pc == add16(pre.pc, mode_len(mode))
    &&& xy_sp_kept(pre, post)
    &&& post.memory == pre.memory
    &&& transients_kept(pre, post)
}

/// The comparison shared by CMP, CPX and CPY: a non-destructive
/// subtraction of the operand from `reg`.
pub open spec fn compare_rel(pre: Core, post: Core, reg: u8, mode: Mode) -> bool {
    let m = spec_value_by_mode(pre, mode);
    let r = (reg - m) % 256;
    &&& post.acc == pre.acc
    &&& c_bit(post.stat, reg >= m)
    &&& nz_bits(post.stat, r as u8)
    &&& post.stat & 0x40 == pre.stat & 0x40
    &&& idbu_kept(pre.stat, post.stat)
    &&& post.pc == add16(pre.pc, mode_len(mode))
    &&& xy_sp_kept(pre, post)
    &&& post.memory == pre.memory
    &&& transients_kept(pre, post)
}

/// CMP compares the accumulator with the operand.
pub open spec fn cmp_rel(pre: Core, post: Core) -> bool {
    compare_rel(pre, post, pre.acc, cmp_mode(pre.ir))
}

/// CPX compares index register X with the operand.
pub open spec fn cpx_rel(pre: Core, post: Core) -> bool {
    compare_rel(pre, post, pre.ix, cpx_mode(pre.ir))
}

/// CPY compares index register Y with the operand.
pub open spec fn cpy_rel(pre: Core, post: Core) -> bool {
    compare_rel(pre, post, pre.iy, cpy_mode(pre.ir))
}

/// The target byte of a shift or rotate: the accumulator in accumulator
/// mode, else the byte at the resolved address.
pub open spec fn rmw_source(pre: Core, mode: Mode) -> u8 {
    if mode is Accumulator {
        pre.acc
    } else {
        spec_mem(pre, spec_addr_by_mode(pre, mode))
    }
}

/// Where a shift or rotate leaves its result, and that it changes
/// nothing else outside the status register and program counter.
pub open spec fn rmw_target(pre: Core, post: Core, mode: Mode, r: u8) -> bool {
    if mode is Accumulator {
        post.acc == r && post.memory == pre.memory
    } else {
        post.acc == pre.acc && post.memory@ == pre.memory@.update(
            spec_addr_by_mode(pre, mode) as int,
            r,
        )
    }
}

/// ASL: shifts the target left one bit; carry takes the bit shifted out.
pub open spec fn asl_rel(pre: Core, post: Core) -> bool {
    let mode = asl_mode(pre.ir);
    let v = rmw_source(pre, mode);
    let r = ((v * 2) % 256) as u8;
    &&& rmw_target(pre, post, mode, r)
    &&& c_bit(post.stat, v >= 0x80)
    &&& nz_bits(post.stat, r)
    &&& post.stat & 0x40 == pre.stat & 0x40
    &&& idbu_kept(pre.stat, post.stat)
    &&& post.pc == add16(pre.pc, mode_len(mode))
    &&& xy_sp_kept(pre, post)
    &&& transients_kept(pre, post)
}

/// LSR: shifts the target right one bit; carry takes the bit shifted
/// out, and the negative flag is always cleared.
pub open spec fn lsr_rel(pre: Core, post: Core) -> bool {
    let mode = lsr_mode(pre.ir);
    let v = rmw_source(pre, mode);
    let r = (v / 2) as u8;
    &&& rmw_target(pre, post, mode, r)
    &&& c_bit(post.stat, v % 2 == 1)
    &&& nz_bits(post.stat, r)
    &&& post.stat & 0x40 == pre.stat & 0x40
    &&& idbu_kept(pre.stat, post.stat)
    &&& post.pc == add16(pre.pc, mode_len(mode))
    &&& xy_sp_kept(pre, post)
    &&& transients_kept(pre, post)
}

/// ROL: rotates the target left through the carry; the previous carry
/// fills bit 0 and the old bit 7 becomes the new carry.
pub open spec fn rol_rel(pre: Core, post: Core) -> bool {
    let mode = rol_mode(pre.ir);
    let v = rmw_source(pre, mode);
    let cin: int = if carry_set(pre.stat) {
        1
    } else {
        0
    };
    let r = ((v * 2 + cin) % 256) as u8;
    &&& rmw_target(pre, post, mode, r)
    &&& c_bit(post.stat, v >= 0x80)
    &&& nz_bits(post.stat, r)
    &&& post.stat & 0x40 == pre.stat & 0x40
    &&& idbu_kept(pre.stat, post.stat)
    &&& post.pc == add16(pre.pc, mode_len(mode))
    &&& xy_sp_kept(pre, post)
    &&& transients_kept(pre, post)
}

/// ROR: rotates the target right through the carry; the previous carry
/// fills bit 7 and the old bit 0 becomes the new carry.
pub open spec fn ror_rel(pre: Core, post: Core) -> bool {
    let mode = ror_mode(pre.ir);
    let v = rmw_source(pre, mode);
    let cin: int = if carry_set(pre.stat) {
        1
    } else {
        0
    };
    let r = (v / 2 + cin * 0x80) as u8;
    &&& rmw_target(pre, post, mode, r)
    &&& c_bit(post.stat, v % 2 == 1)
    &&& nz_bits(post.stat, r)
    &&& post.stat & 0x40 == pre.stat & 0x40
    &&& idbu_kept(pre.stat, post.stat)
    &&& post.pc == add16(pre.pc, mode_len(mode))
    &&& xy_sp_kept(pre, post)
    &&& transients_kept(pre, post)
}

/// INC: increments the addressed byte with 8-bit wraparound.
pub open spec fn inc_rel(pre: Core, post: Core) -> bool {
    let mode = inc_mode(pre.ir);
    let addr = spec_addr_by_mode(pre, mode);
    let r = wrap8(spec_mem(pre, addr), 1);
    &&& post.acc == pre.acc
    &&& post.memory@ == pre.memory@.update(addr as int, r)
    &&& nz_bits(post.stat, r)
    &&& cv_kept(pre.stat, post.stat)
    &&& idbu_kept(pre.stat, post.stat)
    &&& post.pc == add16(pre.pc, mode_len(mode))
    &&& xy_sp_kept(pre, post)
    &&& transients_kept(pre, post)
}

/// DEC: decrements the addressed byte with 8-bit wraparound.
pub open spec fn dec_rel(pre: Core, post: Core) -> bool {
    let mode = dec_mode(pre.ir);
    let addr = spec_addr_by_mode(pre, mode);
    let r = sub8(spec_mem(pre, addr), 1);
    &&& post.acc == pre.acc
    &&& post.memory@ == pre.memory@.update(addr as int, r)
    &&& nz_bits(post.stat, r)
    &&& cv_kept(pre.stat, post.stat)
    &&& idbu_kept(pre.stat, post.stat)
    &&& post.pc == add16(pre.pc, mode_len(mode))
    &&& xy_sp_kept(pre, post)
    &&& transients_kept(pre, post)
}

/// LDA: loads the operand into the accumulator.
pub open spec fn lda_rel(pre: Core, post: Core) -> bool {
    let mode = lda_mode(pre.ir);
    let m = spec_value_by_mode(pre, mode);
    &&& post.acc == m
    &&& nz_bits(post.stat, m)
    &&& cv_kept(pre.stat, post.stat)
    &&& idbu_kept(pre.stat, post.stat)
    &&& post.pc == add16(pre.pc, mode_len(mode))
    &&& xy_sp_kept(pre, post)
    &&& post.memory == pre.memory
    &&& transients_kept(pre, post)
}

/// LDX: loads the operand into index register X.
pub open spec fn ldx_rel(pre: Core, post: Core) -> bool {
    let mode = ldx_mode(pre.ir);
    let m = spec_value_by_mode(pre, mode);
    &&& post.acc == pre.acc
    &&& post.ix == m
    &&& post.iy == pre.iy
    &&& post.sp == pre.sp
    &&& nz_bits(post.stat, m)
    &&& cv_kept(pre.stat, post.stat)
    &&& idbu_kept(pre.stat, post.stat)
    &&& post.pc == add16(pre.pc, mode_len(mode))
    &&& post.memory == pre.memory
    &&& transients_kept(pre, post)
}

/// LDY: loads the operand into index register Y.
pub open spec fn ldy_rel(pre: Core, post: Core) -> bool {
    let mode = ldy_mode(pre.ir);
    let m = spec_value_by_mode(pre, mode);
    &&& post.acc == pre.acc
    &&& post.ix == pre.ix
    &&& post.iy == m
    &&& post.sp == pre.sp
    &&& nz_bits(post.stat, m)
    &&& cv_kept(pre.stat, post.stat)
    &&& idbu_kept(pre.stat, post.stat)
    &&& post.pc == add16(pre.pc, mode_len(mode))
    &&& post.memory == pre.memory
    &&& transients_kept(pre, post)
}

/// STA: stores the accumulator at the resolved address; no flags change.
pub open spec fn sta_rel(pre: Core, post: Core) -> bool {
    let mode = sta_mode(pre.ir);
    &&& post.acc == pre.acc
    &&& post.stat == pre.stat
    &&& post.memory@ == pre.memory@.update(spec_addr_by_mode(pre, mode) as int, pre.acc)
    &&& post.pc == add16(pre.pc, mode_len(mode))
    &&& xy_sp_kept(pre, post)
    &&& transients_kept(pre, post)
}

/// STX: stores index register X at the resolved address.
pub open spec fn stx_rel(pre: Core, post: Core) -> bool {
    let mode = stx_mode(pre.ir);
    &&& post.acc == pre.acc
    &&& post.stat == pre.stat
    &&& post.memory@ == pre.memory@.update(spec_addr_by_mode(pre, mode) as int, pre.ix)
    &&& post.pc == add16(pre.pc, mode_len(mode))
    &&& xy_sp_kept(pre, post)
    &&& transients_kept(pre, post)
}

/// STY: stores index register Y at the resolved address.
pub open spec fn sty_rel(pre: Core, post: Core) -> bool {
    let mode = sty_mode(pre.ir);
    &&& post.acc == pre.acc
    &&& post.stat == pre.stat
    &&& post.memory@ == pre.memory@.update(spec_addr_by_mode(pre, mode) as int, pre.iy)
    &&& post.pc == add16(pre.pc, mode_len(mode))
    &&& xy_sp_kept(pre, post)
    &&& transients_kept(pre, post)
}

/// A conditional branch: two bytes are always consumed, and when the
/// condition holds the signed operand is added to the program counter
/// as well.  Nothing but the program counter changes.
pub open spec fn branch_rel(pre: Core, post: Core, taken: bool) -> bool {
    &&& post.pc == (if taken {
        branch_dest(pre.pc, spec_operand(pre))
    } else {
        add16(pre.pc, 2)
    })
    &&& post.acc == pre.acc
    &&& post.stat == pre.stat
    &&& xy_sp_kept(pre, post)
    &&& post.memory == pre.memory
    &&& transients_kept(pre, post)
}

/// BCC branches while the carry flag is clear.
pub open spec fn bcc_rel(pre: Core, post: Core) -> bool {
    branch_rel(pre, post, !carry_set(pre.stat))
}

/// BCS branches while the carry flag is set.
pub open spec fn bcs_rel(pre: Core, post: Core) -> bool {
    branch_rel(pre, post, carry_set(pre.stat))
}

/// BEQ branches while the zero flag is set.
pub open spec fn beq_rel(pre: Core, post: Core) -> bool {
    branch_rel(pre, post, zero_set(pre.stat))
}

/// BNE branches while the zero flag is clear.
pub open spec fn bne_rel(pre: Core, post: Core) -> bool {
    branch_rel(pre, post, !zero_set(pre.stat))
}

/// BMI branches while the negative flag is set.
pub open spec fn bmi_rel(pre: Core, post: Core) -> bool {
    branch_rel(pre, post, negative_set(pre.stat))
}

/// BPL branches while the negative flag is clear.
pub open spec fn bpl_rel(pre: Core, post: Core) -> bool {
    branch_rel(pre, post, !negative_set(pre.stat))
}

/// BVC branches while the overflow flag is clear.
pub open spec fn bvc_rel(pre: Core, post: Core) -> bool {
    branch_rel(pre, post, !overflow_set(pre.stat))
}

/// BVS branches while the overflow flag is set.
pub open spec fn bvs_rel(pre: Core, post: Core) -> bool {
    branch_rel(pre, post, overflow_set(pre.stat))
}

/// A one-byte instruction that replaces the status register wholesale.
pub open spec fn stat_update_rel(pre: Core, post: Core, stat: u8) -> bool {
    &&& post.stat == stat
    &&& post.acc == pre.acc
    &&& post.pc == add16(pre.pc, 1)
    &&& xy_sp_kept(pre, post)
    &&& post.memory == pre.memory
    &&& transients_kept(pre, post)
}

/// CLC clears exactly the carry flag.
pub open spec fn clc_rel(pre: Core, post: Core) -> bool {
    stat_update_rel(pre, post, pre.stat & 0xFE)
}

/// SEC sets exactly the carry flag.
pub open spec fn sec_rel(pre: Core, post: Core) -> bool {
    stat_update_rel(pre, post, pre.stat | 0x01)
}

/// CLD clears exactly the decimal flag.
pub open spec fn cld_rel(pre: Core, post: Core) -> bool {
    stat_update_rel(pre, post, pre.stat & 0xF7)
}

/// SED sets exactly the decimal flag.
pub open spec fn sed_rel(pre: Core, post: Core) -> bool {
    stat_update_rel(pre, post, pre.stat | 0x08)
}

/// CLI clears exactly the interrupt-disable flag.
pub open spec fn cli_rel(pre: Core, post: Core) -> bool {
    stat_update_rel(pre, post, pre.stat & 0xFB)
}

/// SEI sets exactly the interrupt-disable flag.
pub open spec fn sei_rel(pre: Core, post: Core) -> bool {
    stat_update_rel(pre, post, pre.stat | 0x04)
}

/// CLV clears exactly the overflow flag.
pub open spec fn clv_rel(pre: Core, post: Core) -> bool {
    stat_update_rel(pre, post, pre.stat & 0xBF)
}

/// NOP advances the program counter and does nothing else.
pub open spec fn nop_rel(pre: Core, post: Core) -> bool {
    stat_update_rel(pre, post, pre.stat)
}

/// A register-to-register transfer that refreshes zero and negative.
pub open spec fn transfer_flags(pre: Core, post: Core, v: u8) -> bool {
    &&& nz_bits(post.stat, v)
    &&& cv_kept(pre.stat, post.stat)
    &&& idbu_kept(pre.stat, post.stat)
    &&& post.pc == add16(pre.pc, 1)
    &&& post.memory == pre.memory
    &&& transients_kept(pre, post)
}

/// TAX copies the accumulator to X.
pub open spec fn tax_rel(pre: Core, post: Core) -> bool {
    &&& post.acc == pre.acc
    &&& post.ix == pre.acc
    &&& post.iy == pre.iy
    &&& post.sp == pre.sp
    &&& transfer_flags(pre, post, pre.acc)
}

/// TXA copies X to the accumulator.
pub open spec fn txa_rel(pre: Core, post: Core) -> bool {
    &&& post.acc == pre.ix
    &&& post.ix == pre.ix
    &&& post.iy == pre.iy
    &&& post.sp == pre.sp
    &&& transfer_flags(pre, post, pre.ix)
}

/// TAY copies the accumulator to Y.
pub open spec fn tay_rel(pre: Core, post: Core) -> bool {
    &&& post.acc == pre.acc
    &&& post.ix == pre.ix
    &&& post.iy == pre.acc
    &&& post.sp == pre.sp
    &&& transfer_flags(pre, post, pre.acc)
}

/// TYA copies Y to the accumulator.
pub open spec fn tya_rel(pre: Core, post: Core) -> bool {
    &&& post.acc == pre.iy
    &&& post.ix == pre.ix
    &&& post.iy == pre.iy
    &&& post.sp == pre.sp
    &&& transfer_flags(pre, post, pre.iy)
}

/// TSX copies the stack pointer to X.
pub open spec fn tsx_rel(pre: Core, post: Core) -> bool {
    &&& post.acc == pre.acc
    &&& post.ix == pre.sp
    &&& post.iy == pre.iy
    &&& post.sp == pre.sp
    &&& transfer_flags(pre, post, pre.sp)
}

/// TXS copies X to the stack pointer; uniquely among the transfers it
/// leaves every flag alone.
pub open spec fn txs_rel(pre: Core, post: Core) -> bool {
    &&& post.acc == pre.acc
    &&& post.ix == pre.ix
    &&& post.iy == pre.iy
    &&& post.sp == pre.ix
    &&& post.stat == pre.stat
    &&& post.pc == add16(pre.pc, 1)
    &&& post.memory == pre.memory
    &&& transients_kept(pre, post)
}

/// INX: X gains one with 8-bit wraparound.
pub open spec fn inx_rel(pre: Core, post: Core) -> bool {
    &&& post.acc == pre.acc
    &&& post.ix == wrap8(pre.ix, 1)
    &&& post.iy == pre.iy
    &&& post.sp == pre.sp
    &&& transfer_flags(pre, post, wrap8(pre.ix, 1))
}

/// INY: Y gains one with 8-bit wraparound.
pub open spec fn iny_rel(pre: Core, post: Core) -> bool {
    &&& post.acc == pre.acc
    &&& post.ix == pre.ix
    &&& post.iy == wrap8(pre.iy, 1)
    &&& post.sp == pre.sp
    &&& transfer_flags(pre, post, wrap8(pre.iy, 1))
}

/// DEX: X loses one with 8-bit wraparound.
pub open spec fn dex_rel(pre: Core, post: Core) -> bool {
    &&& post.acc == pre.acc
    &&& post.ix == sub8(pre.ix, 1)
    &&& post.iy == pre.iy
    &&& post.sp == pre.sp
    &&& transfer_flags(pre, post, sub8(pre.ix, 1))
}

/// DEY: Y loses one with 8-bit wraparound.
pub open spec fn dey_rel(pre: Core, post: Core) -> bool {
    &&& post.acc == pre.acc
    &&& post.ix == pre.ix
    &&& post.iy == sub8(pre.iy, 1)
    &&& post.sp == pre.sp
    &&& transfer_flags(pre, post, sub8(pre.iy, 1))
}

/// The stack slot a stack pointer value names.
pub open spec fn stack_slot(sp: u8) -> int {
    0x100 + sp
}

/// PHA pushes the accumulator; the stack pointer wraps silently.
pub open spec fn pha_rel(pre: Core, post: Core) -> bool {
    &&& post.acc == pre.acc
    &&& post.stat == pre.stat
    &&& post.memory@ == pre.memory@.update(stack_slot(pre.sp), pre.acc)
    &&& post.sp == sub8(pre.sp, 1)
    &&& post.ix == pre.ix
    &&& post.iy == pre.iy
    &&& post.pc == add16(pre.pc, 1)
    &&& transients_kept(pre, post)
}

/// PHP pushes the status register with the break flag forced on in the
/// pushed copy only.
pub open spec fn php_rel(pre: Core, post: Core) -> bool {
    &&& post.acc == pre.acc
    &&& post.stat == pre.stat
    &&& post.memory@ == pre.memory@.update(stack_slot(pre.sp), pre.stat | 0x10)
    &&& post.sp == sub8(pre.sp, 1)
    &&& post.ix == pre.ix
    &&& post.iy == pre.iy
    &&& post.pc == add16(pre.pc, 1)
    &&& transients_kept(pre, post)
}

/// PLA pulls the accumulator from the stack and zeroes the vacated
/// slot, a deliberate debugging aid of this machine model.
pub open spec fn pla_rel(pre: Core, post: Core) -> bool {
    let slot = stack_slot(wrap8(pre.sp, 1));
    let v = pre.memory@[slot];
    &&& post.acc == v
    &&& post.memory@ == pre.memory@.update(slot, 0u8)
    &&& post.sp == wrap8(pre.sp, 1)
    &&& post.ix == pre.ix
    &&& post.iy == pre.iy
    &&& nz_bits(post.stat, v)
    &&& cv_kept(pre.stat, post.stat)
    &&& idbu_kept(pre.stat, post.stat)
    &&& post.pc == add16(pre.pc, 1)
    &&& transients_kept(pre, post)
}

/// PLP pulls the whole status register from the stack and zeroes the
/// vacated slot.
pub open spec fn plp_rel(pre: Core, post: Core) -> bool {
    let slot = stack_slot(wrap8(pre.sp, 1));
    &&& post.acc == pre.acc
    &&& post.stat == pre.memory@[slot]
    &&& post.memory@ == pre.memory@.update(slot, 0u8)
    &&& post.sp == wrap8(pre.sp, 1)
    &&& post.ix == pre.ix
    &&& post.iy == pre.iy
    &&& post.pc == add16(pre.pc, 1)
    &&& transients_kept(pre, post)
}

/// JMP: the program counter moves to the absolute target, or for the
/// indirect form to the target read through the pointer.
pub open spec fn jmp_rel(pre: Core, post: Core) -> bool {
    &&& post.pc == (if pre.ir == 0x4C {
        spec_absolute(pre)
    } else {
        spec_indirect(pre)
    })
    &&& post.acc == pre.acc
    &&& post.stat == pre.stat
    &&& xy_sp_kept(pre, post)
    &&& post.memory == pre.memory
    &&& transients_kept(pre, post)
}

/// JSR: pushes the address of the instruction's last byte (one before
/// the return point, as RTS compensates) and jumps to the subroutine.
pub open spec fn jsr_rel(pre: Core, post: Core) -> bool {
    let ret = add16(pre.pc, 2);
    &&& post.pc == spec_absolute(pre)
    &&& post.memory@ == pre.memory@.update(stack_slot(pre.sp), hi_byte(ret)).update(
        stack_slot(sub8(pre.sp, 1)),
        lo_byte(ret),
    )
    &&& post.sp == sub8(pre.sp, 2)
    &&& post.acc == pre.acc
    &&& post.stat == pre.stat
    &&& post.ix == pre.ix
    &&& post.iy == pre.iy
    &&& transients_kept(pre, post)
}

/// RTS: pulls the return address and resumes one byte past it.
pub open spec fn rts_rel(pre: Core, post: Core) -> bool {
    let lo = pre.memory@[stack_slot(wrap8(pre.sp, 1))];
    let hi = pre.memory@[stack_slot(wrap8(pre.sp, 2))];
    &&& post.pc == add16(word(lo, hi), 1)
    &&& post.sp == wrap8(pre.sp, 2)
    &&& post.acc == pre.acc
    &&& post.stat == pre.stat
    &&& post.ix == pre.ix
    &&& post.iy == pre.iy
    &&& post.memory == pre.memory
    &&& transients_kept(pre, post)
}

/// BRK: forces the break flag, pushes the return address and the status,
/// and loads the program counter from the interrupt vector.
pub open spec fn brk_rel(pre: Core, post: Core) -> bool {
    let ret = add16(pre.pc, 2);
    let pushed = pre.stat | 0x10;
    &&& post.stat == pushed
    &&& post.memory@ == pre.memory@.update(stack_slot(pre.sp), hi_byte(ret)).update(
        stack_slot(sub8(pre.sp, 1)),
        lo_byte(ret),
    ).update(stack_slot(sub8(pre.sp, 2)), pushed)
    &&& post.sp == sub8(pre.sp, 3)
    &&& post.pc == word(spec_mem(pre, 0xFFFE), spec_mem(pre, 0xFFFF))
    &&& post.acc == pre.acc
    &&& post.ix == pre.ix
    &&& post.iy == pre.iy
    &&& transients_kept(pre, post)
}

/// RTI: interrupt handling beyond the BRK vector is out of scope, so
/// returning from an interrupt is modeled as leaving the state as it is.
pub open spec fn rti_rel(pre: Core, post: Core) -> bool {
    &&& post.acc == pre.acc
    &&& post.stat == pre.stat
    &&& post.pc == pre.pc
    &&& xy_sp_kept(pre, post)
    &&& post.memory == pre.memory
    &&& transients_kept(pre, post)
}

/// The relation that the handler tagged `m` establishes.
pub open spec fn handler_rel(m: Mnemonic, pre: Core, post: Core) -> bool {
    match m {
        Mnemonic::Adc => adc_rel(pre, post),
        Mnemonic::And => and_rel(pre, post),
        Mnemonic::Asl => asl_rel(pre, post),
        Mnemonic::Bcc => bcc_rel(pre, post),
        Mnemonic::Bcs => bcs_rel(pre, post),
        Mnemonic::Beq => beq_rel(pre, post),
        Mnemonic::Bit => bit_rel(pre, post),
        Mnemonic::Bmi => bmi_rel(pre, post),
        Mnemonic::Bne => bne_rel(pre, post),
        Mnemonic::Bpl => bpl_rel(pre, post),
        Mnemonic::Brk => brk_rel(pre, post),
        Mnemonic::Bvc => bvc_rel(pre, post),
        Mnemonic::Bvs => bvs_rel(pre, post),
        Mnemonic::Clc => clc_rel(pre, post),
        Mnemonic::Cld => cld_rel(pre, post),
        Mnemonic::Cli => cli_rel(pre, post),
        Mnemonic::Clv => clv_rel(pre, post),
        Mnemonic::Cmp => cmp_rel(pre, post),
        Mnemonic::Cpx => cpx_rel(pre, post),
        Mnemonic::Cpy => cpy_rel(pre, post),
        Mnemonic::Dec => dec_rel(pre, post),
        Mnemonic::Dex => dex_rel(pre, post),
        Mnemonic::Dey => dey_rel(pre, post),
        Mnemonic::Eor => eor_rel(pre, post),
        Mnemonic::Inc => inc_rel(pre, post),
        Mnemonic::Inx => inx_rel(pre, post),
        Mnemonic::Iny => iny_rel(pre, post),
        Mnemonic::Jmp => jmp_rel(pre, post),
        Mnemonic::Jsr => jsr_rel(pre, post),
        Mnemonic::Lda => lda_rel(pre, post),
        Mnemonic::Ldx => ldx_rel(pre, post),
        Mnemonic::Ldy => ldy_rel(pre, post),
        Mnemonic::Lsr => lsr_rel(pre, post),
        Mnemonic::Nop => nop_rel(pre, post),
        Mnemonic::Ora => ora_rel(pre, post),
        Mnemonic::Pha => pha_rel(pre, post),
        Mnemonic::Php => php_rel(pre, post),
        Mnemonic::Pla => pla_rel(pre, post),
        Mnemonic::Plp => plp_rel(pre, post),
        Mnemonic::Rol => rol_rel(pre, post),
        Mnemonic::Ror => ror_rel(pre, post),
        Mnemonic::Rti => rti_rel(pre, post),
        Mnemonic::Rts => rts_rel(pre, post),
        Mnemonic::Sbc => sbc_rel(pre, post),
        Mnemonic::Sec => sec_rel(pre, post),
        Mnemonic::Sed => sed_rel(pre, post),
        Mnemonic::Sei => sei_rel(pre, post),
        Mnemonic::Sta => sta_rel(pre, post),
        Mnemonic::Stx => stx_rel(pre, post),
        Mnemonic::Sty => sty_rel(pre, post),
        Mnemonic::Tax => tax_rel(pre, post),
        Mnemonic::Tay => tay_rel(pre, post),
        Mnemonic::Tsx => tsx_rel(pre, post),
        Mnemonic::Txa => txa_rel(pre, post),
        Mnemonic::Txs => txs_rel(pre, post),
        Mnemonic::Tya => tya_rel(pre, post),
    }
}


/// Setting the carry twice leaves the status exactly as setting it
/// once does: the second SEC changes nothing.
pub proof fn lemma_sec_idempotent(pre: Core, mid: Core, post: Core)
    requires
        sec_rel(pre, mid),
        sec_rel(mid, post),
    ensures
        post.stat == mid.stat,
{
    let s = pre.stat;
    assert((s | 0x01) | 0x01 == s | 0x01) by (bit_vector);
}

/// Clearing the carry right after setting it clears exactly bit 0:
/// the carry ends clear and every other status bit reads as it did
/// before the pair ran.
pub proof fn lemma_sec_then_clc(pre: Core, mid: Core, post: Core)
    requires
        sec_rel(pre, mid),
        clc_rel(mid, post),
    ensures
        !carry_set(post.stat),
        post.stat & 0x02 == pre.stat & 0x02,
        post.stat & 0x04 == pre.stat & 0x04,
        post.stat & 0x08 == pre.stat & 0x08,
        post.stat & 0x10 == pre.stat & 0x10,
        post.stat & 0x20 == pre.stat & 0x20,
        post.stat & 0x40 == pre.stat & 0x40,
        post.stat & 0x80 == pre.stat & 0x80,
{
    let s = pre.stat;
    assert(((s | 0x01) & 0xFE) & 0x01 != 0x01 && ((s | 0x01) & 0xFE) & 0x02 == s & 0x02 && ((s
        | 0x01) & 0xFE) & 0x04 == s & 0x04 && ((s | 0x01) & 0xFE) & 0x08 == s & 0x08 && ((s | 0x01)
        & 0xFE) & 0x10 == s & 0x10 && ((s | 0x01) & 0xFE) & 0x20 == s & 0x20 && ((s | 0x01) & 0xFE)
        & 0x40 == s & 0x40 && ((s | 0x01) & 0xFE) & 0x80 == s & 0x80) by (bit_vector);
}

/// Jumping to a subroutine and returning at once resumes right after
/// the jump: three bytes past where the JSR stood, with the stack
/// pointer restored, whatever its value was.
pub proof fn lemma_jsr_rts_roundtrip(pre: Core, mid: Core, post: Core)
    requires
        pre.well_formed(),
        jsr_rel(pre, mid),
        rts_rel(mid, post),
    ensures
        post.pc == add16(pre.pc, 3),
        post.sp == pre.sp,
{
    let ret = add16(pre.pc, 2);
    crate::arith::lemma_wrap8_of_sub8(pre.sp, 2, 1);
    crate::arith::lemma_wrap8_of_sub8(pre.sp, 2, 2);
    crate::arith::lemma_sub8_zero(pre.sp);
    // The two pushed slots are distinct, so RTS reads back exactly the
    // bytes JSR pushed.
    assert(sub8(pre.sp, 1) != pre.sp) by {
        if pre.sp > 0 {
            vstd::arithmetic::div_mod::lemma_small_mod((pre.sp - 1) as nat, 0x100);
        }
    };
    assert(mid.memory@[stack_slot(sub8(pre.sp, 1))] == lo_byte(ret));
    assert(mid.memory@[stack_slot(pre.sp)] == hi_byte(ret));
    assert(word(lo_byte(ret), hi_byte(ret)) == ret) by {
        vstd::arithmetic::div_mod::lemma_fundamental_div_mod(ret as int, 0x100);
    };
    crate::arith::lemma_add16_assoc(pre.pc, 2, 1);
}


} // verus!
