//! One handler per mnemonic.  Each handler switches on the opcode in
//! the instruction register to pick the addressing mode, performs the
//! operation with 8-bit wrapping arithmetic, updates exactly the status
//! flags the processor documents for it, and advances the program
//! counter by the instruction's length (branches, jumps and subroutine
//! instructions set it explicitly instead).
//!
//! Each handler's contract is the matching relation in `semantics`.

use crate::addressing::{absolute, indirect, operand_addr, operand_value, relative};
use crate::arith::{
    branch_target, make_word, split_word, wrapping_add16, wrapping_add8, wrapping_sub8,
};
use crate::semantics::{
    adc_rel, and_rel, asl_rel, bcc_rel, bcs_rel, beq_rel, bit_rel, bmi_rel, bne_rel, bpl_rel,
    branch_rel, brk_rel, bvc_rel, bvs_rel, c_bit, clc_rel, cld_rel, cli_rel, clv_rel, cmp_rel,
    compare_rel, cpx_rel, cpy_rel, dec_rel, dex_rel, dey_rel, eor_rel, idbu_kept, inc_rel,
    inx_rel, iny_rel, jmp_rel, jsr_rel, lda_rel, ldx_rel, ldy_rel, lsr_rel, nop_rel, nz_bits,
    ora_rel, pha_rel, php_rel, pla_rel, plp_rel, rol_rel, ror_rel, rti_rel, rts_rel, sbc_rel,
    sec_rel, sed_rel, sei_rel, sta_rel, stx_rel, sty_rel, tax_rel, tay_rel, tsx_rel, txa_rel,
    txs_rel, tya_rel,
};
use crate::status::{set_flag, FLAG_CARRY, FLAG_NEGATIVE, FLAG_OVERFLOW, FLAG_ZERO};
use crate::system::{read_mem, write_mem, Core};
use crate::table::{
    is_adc_op, is_and_op, is_asl_op, is_bit_op, is_cmp_op, is_cpx_op, is_cpy_op, is_dec_op,
    is_eor_op, is_inc_op, is_jmp_op, is_lda_op, is_ldx_op, is_ldy_op, is_lsr_op, is_ora_op,
    is_rol_op, is_ror_op, is_sbc_op, is_sta_op, is_stx_op, is_sty_op, mode_length, Mode,
};
use vstd::arithmetic::div_mod::lemma_mod_multiples_vanish;
use vstd::prelude::*;

verus! {

/// ADC: add the operand and the carry to the accumulator.
pub fn adc(core: &mut Core)
    requires
        old(core).well_formed(),
        is_adc_op(old(core).ir),
    ensures
        final(core).well_formed(),
        adc_rel(*old(core), *final(core)),
{
    let mode: Mode = match core.ir {
        0x69 => Mode::Immediate,
        0x65 => Mode::ZeroPage,
        0x75 => Mode::ZeroPageX,
        0x6D => Mode::Absolute,
        0x7D => Mode::AbsoluteX,
        0x79 => Mode::AbsoluteY,
        0x61 => Mode::XIndirect,
        _ => Mode::IndirectY,
    };
    let m = operand_value(core, mode);
    let cin: u16 = if (core.stat & 0x01) == 0x01 {
        1
    } else {
        0
    };
    let sum: u16 = (core.acc as u16) + (m as u16) + cin;
    let r: u8 = (sum % 0x100) as u8;
    let acc_sign = core.acc >= 0x80;
    let st = core.stat;
    core.acc = r;
    let st = set_flag(st, FLAG_CARRY, sum > 0xFF);
    let st = set_flag(st, FLAG_ZERO, r == 0);
    let st = set_flag(st, FLAG_NEGATIVE, r >= 0x80);
    let st = set_flag(st, FLAG_OVERFLOW, acc_sign == (m >= 0x80) && acc_sign != (r >= 0x80));
    core.stat = st;
    core.pc = wrapping_add16(core.pc, mode_length(mode));
}

/// SBC: subtract the operand and the borrow from the accumulator.
pub fn sbc(core: &mut Core)
    requires
        old(core).well_formed(),
        is_sbc_op(old(core).ir),
    ensures
        final(core).well_formed(),
        sbc_rel(*old(core), *final(core)),
{
    let mode: Mode = match core.ir {
        0xE9 => Mode::Immediate,
        0xE5 => Mode::ZeroPage,
        0xF5 => Mode::ZeroPageX,
        0xED => Mode::Absolute,
        0xFD => Mode::AbsoluteX,
        0xF9 => Mode::AbsoluteY,
        0xE1 => Mode::XIndirect,
        _ => Mode::IndirectY,
    };
    let m = operand_value(core, mode);
    let borrow: i16 = if (core.stat & 0x01) == 0x01 {
        0
    } else {
        1
    };
    let diff: i16 = (core.acc as i16) - (m as i16) - borrow;
    proof {
        lemma_mod_multiples_vanish(1, diff as int, 0x100);
    }
    let r: u8 = ((diff + 0x100) % 0x100) as u8;
    let acc_sign = core.acc >= 0x80;
    let st = core.stat;
    core.acc = r;
    let st = set_flag(st, FLAG_CARRY, diff >= 0);
    let st = set_flag(st, FLAG_ZERO, r == 0);
    let st = set_flag(st, FLAG_NEGATIVE, r >= 0x80);
    let st = set_flag(st, FLAG_OVERFLOW, acc_sign != (m >= 0x80) && acc_sign != (r >= 0x80));
    core.stat = st;
    core.pc = wrapping_add16(core.pc, mode_length(mode));
}

/// AND: bitwise conjunction of the operand into the accumulator.
pub fn and(core: &mut Core)
    requires
        old(core).well_formed(),
        is_and_op(old(core).ir),
    ensures
        final(core).well_formed(),
        and_rel(*old(core), *final(core)),
{
    let mode: Mode = match core.ir {
        0x29 => Mode::Immediate,
        0x25 => Mode::ZeroPage,
        0x35 => Mode::ZeroPageX,
        0x2D => Mode::Absolute,
        0x3D => Mode::AbsoluteX,
        0x39 => Mode::AbsoluteY,
        0x21 => Mode::XIndirect,
        _ => Mode::IndirectY,
    };
    let m = operand_value(core, mode);
    let r = core.acc & m;
    core.acc = r;
    let st = set_flag(core.stat, FLAG_ZERO, r == 0);
    let st = set_flag(st, FLAG_NEGATIVE, r >= 0x80);
    core.stat = st;
    core.pc = wrapping_add16(core.pc, mode_length(mode));
}

/// ORA: bitwise disjunction of the operand into the accumulator.
pub fn ora(core: &mut Core)
    requires
        old(core).well_formed(),
        is_ora_op(old(core).ir),
    ensures
        final(core).well_formed(),
        ora_rel(*old(core), *final(core)),
{
    let mode: Mode = match core.ir {
        0x09 => Mode::Immediate,
        0x05 => Mode::ZeroPage,
        0x15 => Mode::ZeroPageX,
        0x0D => Mode::Absolute,
        0x1D => Mode::AbsoluteX,
        0x19 => Mode::AbsoluteY,
        0x01 => Mode::XIndirect,
        _ => Mode::IndirectY,
    };
    let m = operand_value(core, mode);
    let r = core.acc | m;
    core.acc = r;
    let st = set_flag(core.stat, FLAG_ZERO, r == 0);
    let st = set_flag(st, FLAG_NEGATIVE, r >= 0x80);
    core.stat = st;
    core.pc = wrapping_add16(core.pc, mode_length(mode));
}

/// EOR: bitwise exclusive or of the operand into the accumulator.
pub fn eor(core: &mut Core)
    requires
        old(core).well_formed(),
        is_eor_op(old(core).ir),
    ensures
        final(core).well_formed(),
        eor_rel(*old(core), *final(core)),
{
    let mode: Mode = match core.ir {
        0x49 => Mode::Immediate,
        0x45 => Mode::ZeroPage,
        0x55 => Mode::ZeroPageX,
        0x4D => Mode::Absolute,
        0x5D => Mode::AbsoluteX,
        0x59 => Mode::AbsoluteY,
        0x41 => Mode::XIndirect,
        _ => Mode::IndirectY,
    };
    let m = operand_value(core, mode);
    let r = core.acc ^ m;
    core.acc = r;
    let st = set_flag(core.stat, FLAG_ZERO, r == 0);
    let st = set_flag(st, FLAG_NEGATIVE, r >= 0x80);
    core.stat = st;
    core.pc = wrapping_add16(core.pc, mode_length(mode));
}

/// LDA: load the operand into the accumulator.
pub fn lda(core: &mut Core)
    requires
        old(core).well_formed(),
        is_lda_op(old(core).ir),
    ensures
        final(core).well_formed(),
        lda_rel(*old(core), *final(core)),
{
    let mode: Mode = match core.ir {
        0xA9 => Mode::Immediate,
        0xA5 => Mode::ZeroPage,
        0xB5 => Mode::ZeroPageX,
        0xAD => Mode::Absolute,
        0xBD => Mode::AbsoluteX,
        0xB9 => Mode::AbsoluteY,
        0xA1 => Mode::XIndirect,
        _ => Mode::IndirectY,
    };
    let m = operand_value(core, mode);
    core.acc = m;
    let st = set_flag(core.stat, FLAG_ZERO, m == 0);
    let st = set_flag(st, FLAG_NEGATIVE, m >= 0x80);
    core.stat = st;
    core.pc = wrapping_add16(core.pc, mode_length(mode));
}

/// LDX: load the operand into index register X.
pub fn ldx(core: &mut Core)
    requires
        old(core).well_formed(),
        is_ldx_op(old(core).ir),
    ensures
        final(core).well_formed(),
        ldx_rel(*old(core), *final(core)),
{
    let mode: Mode = match core.ir {
        0xA2 => Mode::Immediate,
        0xA6 => Mode::ZeroPage,
        0xB6 => Mode::ZeroPageY,
        0xAE => Mode::Absolute,
        _ => Mode::AbsoluteY,
    };
    let m = operand_value(core, mode);
    core.ix = m;
    let st = set_flag(core.stat, FLAG_ZERO, m == 0);
    let st = set_flag(st, FLAG_NEGATIVE, m >= 0x80);
    core.stat = st;
    core.pc = wrapping_add16(core.pc, mode_length(mode));
}

/// LDY: load the operand into index register Y.
pub fn ldy(core: &mut Core)
    requires
        old(core).well_formed(),
        is_ldy_op(old(core).ir),
    ensures
        final(core).well_formed(),
        ldy_rel(*old(core), *final(core)),
{
    let mode: Mode = match core.ir {
        0xA0 => Mode::Immediate,
        0xA4 => Mode::ZeroPage,
        0xB4 => Mode::ZeroPageX,
        0xAC => Mode::Absolute,
        _ => Mode::AbsoluteX,
    };
    let m = operand_value(core, mode);
    core.iy = m;
    let st = set_flag(core.stat, FLAG_ZERO, m == 0);
    let st = set_flag(st, FLAG_NEGATIVE, m >= 0x80);
    core.stat = st;
    core.pc = wrapping_add16(core.pc, mode_length(mode));
}

/// The comparison shared by CMP, CPX and CPY.
fn compare(core: &mut Core, reg: u8, mode: Mode)
    requires
        old(core).well_formed(),
    ensures
        final(core).well_formed(),
        compare_rel(*old(core), *final(core), reg, mode),
{
    let m = operand_value(core, mode);
    let diff: i16 = (reg as i16) - (m as i16);
    proof {
        lemma_mod_multiples_vanish(1, diff as int, 0x100);
    }
    let r: u8 = ((diff + 0x100) % 0x100) as u8;
    let st = set_flag(core.stat, FLAG_CARRY, reg >= m);
    let st = set_flag(st, FLAG_ZERO, r == 0);
    let st = set_flag(st, FLAG_NEGATIVE, r >= 0x80);
    core.stat = st;
    core.pc = wrapping_add16(core.pc, mode_length(mode));
}

/// CMP: compare the accumulator with the operand.
pub fn cmp(core: &mut Core)
    requires
        old(core).well_formed(),
        is_cmp_op(old(core).ir),
    ensures
        final(core).well_formed(),
        cmp_rel(*old(core), *final(core)),
{
    let mode: Mode = match core.ir {
        0xC9 => Mode::Immediate,
        0xC5 => Mode::ZeroPage,
        0xD5 => Mode::ZeroPageX,
        0xCD => Mode::Absolute,
        0xDD => Mode::AbsoluteX,
        0xD9 => Mode::AbsoluteY,
        0xC1 => Mode::XIndirect,
        _ => Mode::IndirectY,
    };
    let reg = core.acc;
    compare(core, reg, mode);
}

/// CPX: compare index register X with the operand.
pub fn cpx(core: &mut Core)
    requires
        old(core).well_formed(),
        is_cpx_op(old(core).ir),
    ensures
        final(core).well_formed(),
        cpx_rel(*old(core), *final(core)),
{
    let mode: Mode = match core.ir {
        0xE0 => Mode::Immediate,
        0xE4 => Mode::ZeroPage,
        _ => Mode::Absolute,
    };
    let reg = core.ix;
    compare(core, reg, mode);
}

/// CPY: compare index register Y with the operand.
pub fn cpy(core: &mut Core)
    requires
        old(core).well_formed(),
        is_cpy_op(old(core).ir),
    ensures
        final(core).well_formed(),
        cpy_rel(*old(core), *final(core)),
{
    let mode: Mode = match core.ir {
        0xC0 => Mode::Immediate,
        0xC4 => Mode::ZeroPage,
        _ => Mode::Absolute,
    };
    let reg = core.iy;
    compare(core, reg, mode);
}

/// ASL: shift the accumulator or the addressed byte left one bit.
pub fn asl(core: &mut Core)
    requires
        old(core).well_formed(),
        is_asl_op(old(core).ir),
    ensures
        final(core).well_formed(),
        asl_rel(*old(core), *final(core)),
{
    let mode: Mode = match core.ir {
        0x0A => Mode::Accumulator,
        0x06 => Mode::ZeroPage,
        0x16 => Mode::ZeroPageX,
        0x0E => Mode::Absolute,
        _ => Mode::AbsoluteX,
    };
    let v: u8;
    match mode {
        Mode::Accumulator => {
            v = core.acc;
            let r = (((v as u16) * 2) % 0x100) as u8;
            core.acc = r;
            set_shift_flags(core, v >= 0x80, r);
        },
        _ => {
            let addr = operand_addr(core, mode);
            v = read_mem(core, addr);
            let r = (((v as u16) * 2) % 0x100) as u8;
            write_mem(core, addr, r);
            set_shift_flags(core, v >= 0x80, r);
        },
    }
    core.pc = wrapping_add16(core.pc, mode_length(mode));
}

/// LSR: shift the accumulator or the addressed byte right one bit.
pub fn lsr(core: &mut Core)
    requires
        old(core).well_formed(),
        is_lsr_op(old(core).ir),
    ensures
        final(core).well_formed(),
        lsr_rel(*old(core), *final(core)),
{
    let mode: Mode = match core.ir {
        0x4A => Mode::Accumulator,
        0x46 => Mode::ZeroPage,
        0x56 => Mode::ZeroPageX,
        0x4E => Mode::Absolute,
        _ => Mode::AbsoluteX,
    };
    let v: u8;
    match mode {
        Mode::Accumulator => {
            v = core.acc;
            let r = v / 2;
            core.acc = r;
            set_shift_flags(core, v % 2 == 1, r);
        },
        _ => {
            let addr = operand_addr(core, mode);
            v = read_mem(core, addr);
            let r = v / 2;
            write_mem(core, addr, r);
            set_shift_flags(core, v % 2 == 1, r);
        },
    }
    core.pc = wrapping_add16(core.pc, mode_length(mode));
}

/// ROL: rotate the accumulator or the addressed byte left through the
/// carry flag.
pub fn rol(core: &mut Core)
    requires
        old(core).well_formed(),
        is_rol_op(old(core).ir),
    ensures
        final(core).well_formed(),
        rol_rel(*old(core), *final(core)),
{
    let mode: Mode = match core.ir {
        0x2A => Mode::Accumulator,
        0x26 => Mode::ZeroPage,
        0x36 => Mode::ZeroPageX,
        0x2E => Mode::Absolute,
        _ => Mode::AbsoluteX,
    };
    let cin: u16 = if (core.stat & 0x01) == 0x01 {
        1
    } else {
        0
    };
    let v: u8;
    match mode {
        Mode::Accumulator => {
            v = core.acc;
            let r = (((v as u16) * 2 + cin) % 0x100) as u8;
            core.acc = r;
            set_shift_flags(core, v >= 0x80, r);
        },
        _ => {
            let addr = operand_addr(core, mode);
            v = read_mem(core, addr);
            let r = (((v as u16) * 2 + cin) % 0x100) as u8;
            write_mem(core, addr, r);
            set_shift_flags(core, v >= 0x80, r);
        },
    }
    core.pc = wrapping_add16(core.pc, mode_length(mode));
}

/// ROR: rotate the accumulator or the addressed byte right through the
/// carry flag.
pub fn ror(core: &mut Core)
    requires
        old(core).well_formed(),
        is_ror_op(old(core).ir),
    ensures
        final(core).well_formed(),
        ror_rel(*old(core), *final(core)),
{
    let mode: Mode = match core.ir {
        0x6A => Mode::Accumulator,
        0x66 => Mode::ZeroPage,
        0x76 => Mode::ZeroPageX,
        0x6E => Mode::Absolute,
        _ => Mode::AbsoluteX,
    };
    let cin: u8 = if (core.stat & 0x01) == 0x01 {
        1
    } else {
        0
    };
    let v: u8;
    match mode {
        Mode::Accumulator => {
            v = core.acc;
            let r = v / 2 + cin * 0x80;
            core.acc = r;
            set_shift_flags(core, v % 2 == 1, r);
        },
        _ => {
            let addr = operand_addr(core, mode);
            v = read_mem(core, addr);
            let r = v / 2 + cin * 0x80;
            write_mem(core, addr, r);
            set_shift_flags(core, v % 2 == 1, r);
        },
    }
    core.pc = wrapping_add16(core.pc, mode_length(mode));
}

/// Writes the carry, zero and negative flags of a shift or rotate.
fn set_shift_flags(core: &mut Core, carry: bool, r: u8)
    requires
        old(core).well_formed(),
    ensures
        final(core).well_formed(),
        c_bit(final(core).stat, carry),
        nz_bits(final(core).stat, r),
        final(core).stat & 0x40 == old(core).stat & 0x40,
        idbu_kept(old(core).stat, final(core).stat),
        final(core).acc == old(core).acc,
        final(core).pc == old(core).pc,
        final(core).sp == old(core).sp,
        final(core).ix == old(core).ix,
        final(core).iy == old(core).iy,
        final(core).ir == old(core).ir,
        final(core).decoded == old(core).decoded,
        final(core).info == old(core).info,
        final(core).memory == old(core).memory,
{
    let st = set_flag(core.stat, FLAG_CARRY, carry);
    let st = set_flag(st, FLAG_ZERO, r == 0);
    let st = set_flag(st, FLAG_NEGATIVE, r >= 0x80);
    core.stat = st;
}

/// INC: increment the addressed byte with 8-bit wraparound.
pub fn inc(core: &mut Core)
    requires
        old(core).well_formed(),
        is_inc_op(old(core).ir),
    ensures
        final(core).well_formed(),
        inc_rel(*old(core), *final(core)),
{
    let mode: Mode = match core.ir {
        0xE6 => Mode::ZeroPage,
        0xF6 => Mode::ZeroPageX,
        0xEE => Mode::Absolute,
        _ => Mode::AbsoluteX,
    };
    let addr = operand_addr(core, mode);
    let r = wrapping_add8(read_mem(core, addr), 1);
    write_mem(core, addr, r);
    let st = set_flag(core.stat, FLAG_ZERO, r == 0);
    let st = set_flag(st, FLAG_NEGATIVE, r >= 0x80);
    core.stat = st;
    core.pc = wrapping_add16(core.pc, mode_length(mode));
}

/// DEC: decrement the addressed byte with 8-bit wraparound.
pub fn dec(core: &mut Core)
    requires
        old(core).well_formed(),
        is_dec_op(old(core).ir),
    ensures
        final(core).well_formed(),
        dec_rel(*old(core), *final(core)),
{
    let mode: Mode = match core.ir {
        0xC6 => Mode::ZeroPage,
        0xD6 => Mode::ZeroPageX,
        0xCE => Mode::Absolute,
        _ => Mode::AbsoluteX,
    };
    let addr = operand_addr(core, mode);
    let r = wrapping_sub8(read_mem(core, addr), 1);
    write_mem(core, addr, r);
    let st = set_flag(core.stat, FLAG_ZERO, r == 0);
    let st = set_flag(st, FLAG_NEGATIVE, r >= 0x80);
    core.stat = st;
    core.pc = wrapping_add16(core.pc, mode_length(mode));
}

/// STA: store the accumulator at the resolved address.
pub fn sta(core: &mut Core)
    requires
        old(core).well_formed(),
        is_sta_op(old(core).ir),
    ensures
        final(core).well_formed(),
        sta_rel(*old(core), *final(core)),
{
    let mode: Mode = match core.ir {
        0x85 => Mode::ZeroPage,
        0x95 => Mode::ZeroPageX,
        0x8D => Mode::Absolute,
        0x9D => Mode::AbsoluteX,
        0x99 => Mode::AbsoluteY,
        0x81 => Mode::XIndirect,
        _ => Mode::IndirectY,
    };
    let addr = operand_addr(core, mode);
    let v = core.acc;
    write_mem(core, addr, v);
    core.pc = wrapping_add16(core.pc, mode_length(mode));
}

/// STX: store index register X at the resolved address.
pub fn stx(core: &mut Core)
    requires
        old(core).well_formed(),
        is_stx_op(old(core).ir),
    ensures
        final(core).well_formed(),
        stx_rel(*old(core), *final(core)),
{
    let mode: Mode = match core.ir {
        0x86 => Mode::ZeroPage,
        0x96 => Mode::ZeroPageY,
        _ => Mode::Absolute,
    };
    let addr = operand_addr(core, mode);
    let v = core.ix;
    write_mem(core, addr, v);
    core.pc = wrapping_add16(core.pc, mode_length(mode));
}

/// STY: store index register Y at the resolved address.
pub fn sty(core: &mut Core)
    requires
        old(core).well_formed(),
        is_sty_op(old(core).ir),
    ensures
        final(core).well_formed(),
        sty_rel(*old(core), *final(core)),
{
    let mode: Mode = match core.ir {
        0x84 => Mode::ZeroPage,
        0x94 => Mode::ZeroPageX,
        _ => Mode::Absolute,
    };
    let addr = operand_addr(core, mode);
    let v = core.iy;
    write_mem(core, addr, v);
    core.pc = wrapping_add16(core.pc, mode_length(mode));
}

/// Takes or skips a branch: two bytes are always consumed, and a taken
/// branch adds the signed offset as well.
fn do_branch(core: &mut Core, taken: bool)
    requires
        old(core).well_formed(),
    ensures
        final(core).well_formed(),
        branch_rel(*old(core), *final(core), taken),
{
    if taken {
        let offset = relative(core);
        core.pc = branch_target(core.pc, offset);
    } else {
        core.pc = wrapping_add16(core.pc, 2);
    }
}

/// BCC: branch while the carry flag is clear.
pub fn bcc(core: &mut Core)
    requires
        old(core).well_formed(),
        old(core).ir == 0x90,
    ensures
        final(core).well_formed(),
        bcc_rel(*old(core), *final(core)),
{
    let taken = (core.stat & 0x01) != 0x01;
    do_branch(core, taken);
}

/// BCS: branch while the carry flag is set.
pub fn bcs(core: &mut Core)
    requires
        old(core).well_formed(),
        old(core).ir == 0xB0,
    ensures
        final(core).well_formed(),
        bcs_rel(*old(core), *final(core)),
{
    let taken = (core.stat & 0x01) == 0x01;
    do_branch(core, taken);
}

/// BEQ: branch while the zero flag is set.
pub fn beq(core: &mut Core)
    requires
        old(core).well_formed(),
        old(core).ir == 0xF0,
    ensures
        final(core).well_formed(),
        beq_rel(*old(core), *final(core)),
{
    let taken = (core.stat & 0x02) == 0x02;
    do_branch(core, taken);
}

/// BNE: branch while the zero flag is clear.
pub fn bne(core: &mut Core)
    requires
        old(core).well_formed(),
        old(core).ir == 0xD0,
    ensures
        final(core).well_formed(),
        bne_rel(*old(core), *final(core)),
{
    let taken = (core.stat & 0x02) != 0x02;
    do_branch(core, taken);
}

/// BMI: branch while the negative flag is set.
pub fn bmi(core: &mut Core)
    requires
        old(core).well_formed(),
        old(core).ir == 0x30,
    ensures
        final(core).well_formed(),
        bmi_rel(*old(core), *final(core)),
{
    let taken = (core.stat & 0x80) == 0x80;
    do_branch(core, taken);
}

/// BPL: branch while the negative flag is clear.
pub fn bpl(core: &mut Core)
    requires
        old(core).well_formed(),
        old(core).ir == 0x10,
    ensures
        final(core).well_formed(),
        bpl_rel(*old(core), *final(core)),
{
    let taken = (core.stat & 0x80) != 0x80;
    do_branch(core, taken);
}

/// BVC: branch while the overflow flag is clear.
pub fn bvc(core: &mut Core)
    requires
        old(core).well_formed(),
        old(core).ir == 0x50,
    ensures
        final(core).well_formed(),
        bvc_rel(*old(core), *final(core)),
{
    let taken = (core.stat & 0x40) != 0x40;
    do_branch(core, taken);
}

/// BVS: branch while the overflow flag is set.
pub fn bvs(core: &mut Core)
    requires
        old(core).well_formed(),
        old(core).ir == 0x70,
    ensures
        final(core).well_formed(),
        bvs_rel(*old(core), *final(core)),
{
    let taken = (core.stat & 0x40) == 0x40;
    do_branch(core, taken);
}

/// CLC: clear the carry flag.
pub fn clc(core: &mut Core)
    requires
        old(core).well_formed(),
    ensures
        final(core).well_formed(),
        clc_rel(*old(core), *final(core)),
{
    core.stat = core.stat & 0xFE;
    core.pc = wrapping_add16(core.pc, 1);
}

/// SEC: set the carry flag.
pub fn sec(core: &mut Core)
    requires
        old(core).well_formed(),
    ensures
        final(core).well_formed(),
        sec_rel(*old(core), *final(core)),
{
    core.stat = core.stat | 0x01;
    core.pc = wrapping_add16(core.pc, 1);
}

/// CLD: clear the decimal flag.
pub fn cld(core: &mut Core)
    requires
        old(core).well_formed(),
    ensures
        final(core).well_formed(),
        cld_rel(*old(core), *final(core)),
{
    core.stat = core.stat & 0xF7;
    core.pc = wrapping_add16(core.pc, 1);
}

/// SED: set the decimal flag.
pub fn sed(core: &mut Core)
    requires
        old(core).well_formed(),
    ensures
        final(core).well_formed(),
        sed_rel(*old(core), *final(core)),
{
    core.stat = core.stat | 0x08;
    core.pc = wrapping_add16(core.pc, 1);
}

/// CLI: clear the interrupt-disable flag.
pub fn cli(core: &mut Core)
    requires
        old(core).well_formed(),
    ensures
        final(core).well_formed(),
        cli_rel(*old(core), *final(core)),
{
    core.stat = core.stat & 0xFB;
    core.pc = wrapping_add16(core.pc, 1);
}

/// SEI: set the interrupt-disable flag.
pub fn sei(core: &mut Core)
    requires
        old(core).well_formed(),
    ensures
        final(core).well_formed(),
        sei_rel(*old(core), *final(core)),
{
    core.stat = core.stat | 0x04;
    core.pc = wrapping_add16(core.pc, 1);
}

/// CLV: clear the overflow flag.
pub fn clv(core: &mut Core)
    requires
        old(core).well_formed(),
    ensures
        final(core).well_formed(),
        clv_rel(*old(core), *final(core)),
{
    core.stat = core.stat & 0xBF;
    core.pc = wrapping_add16(core.pc, 1);
}

/// NOP: advance the program counter and change nothing else.
pub fn nop(core: &mut Core)
    requires
        old(core).well_formed(),
    ensures
        final(core).well_formed(),
        nop_rel(*old(core), *final(core)),
{
    core.pc = wrapping_add16(core.pc, 1);
}

/// Writes the zero and negative flags of a transfer or step.
fn set_nz_flags(core: &mut Core, v: u8)
    requires
        old(core).well_formed(),
    ensures
        final(core).well_formed(),
        nz_bits(final(core).stat, v),
        final(core).stat & 0x01 == old(core).stat & 0x01,
        final(core).stat & 0x40 == old(core).stat & 0x40,
        idbu_kept(old(core).stat, final(core).stat),
        final(core).acc == old(core).acc,
        final(core).pc == old(core).pc,
        final(core).sp == old(core).sp,
        final(core).ix == old(core).ix,
        final(core).iy == old(core).iy,
        final(core).ir == old(core).ir,
        final(core).decoded == old(core).decoded,
        final(core).info == old(core).info,
        final(core).memory == old(core).memory,
{
    let st = set_flag(core.stat, FLAG_ZERO, v == 0);
    let st = set_flag(st, FLAG_NEGATIVE, v >= 0x80);
    core.stat = st;
}

/// TAX: copy the accumulator to X.
pub fn tax(core: &mut Core)
    requires
        old(core).well_formed(),
    ensures
        final(core).well_formed(),
        tax_rel(*old(core), *final(core)),
{
    core.ix = core.acc;
    let v = core.ix;
    set_nz_flags(core, v);
    core.pc = wrapping_add16(core.pc, 1);
}

/// TXA: copy X to the accumulator.
pub fn txa(core: &mut Core)
    requires
        old(core).well_formed(),
    ensures
        final(core).well_formed(),
        txa_rel(*old(core), *final(core)),
{
    core.acc = core.ix;
    let v = core.acc;
    set_nz_flags(core, v);
    core.pc = wrapping_add16(core.pc, 1);
}

/// TAY: copy the accumulator to Y.
pub fn tay(core: &mut Core)
    requires
        old(core).well_formed(),
    ensures
        final(core).well_formed(),
        tay_rel(*old(core), *final(core)),
{
    core.iy = core.acc;
    let v = core.iy;
    set_nz_flags(core, v);
    core.pc = wrapping_add16(core.pc, 1);
}

/// TYA: copy Y to the accumulator.
pub fn tya(core: &mut Core)
    requires
        old(core).well_formed(),
    ensures
        final(core).well_formed(),
        tya_rel(*old(core), *final(core)),
{
    core.acc = core.iy;
    let v = core.acc;
    set_nz_flags(core, v);
    core.pc = wrapping_add16(core.pc, 1);
}

/// TSX: copy the stack pointer to X.
pub fn tsx(core: &mut Core)
    requires
        old(core).well_formed(),
    ensures
        final(core).well_formed(),
        tsx_rel(*old(core), *final(core)),
{
    core.ix = core.sp;
    let v = core.ix;
    set_nz_flags(core, v);
    core.pc = wrapping_add16(core.pc, 1);
}

/// TXS: copy X to the stack pointer; no flags change.
pub fn txs(core: &mut Core)
    requires
        old(core).well_formed(),
    ensures
        final(core).well_formed(),
        txs_rel(*old(core), *final(core)),
{
    core.sp = core.ix;
    core.pc = wrapping_add16(core.pc, 1);
}

/// INX: step X up by one with 8-bit wraparound.
pub fn inx(core: &mut Core)
    requires
        old(core).well_formed(),
    ensures
        final(core).well_formed(),
        inx_rel(*old(core), *final(core)),
{
    core.ix = wrapping_add8(core.ix, 1);
    let v = core.ix;
    set_nz_flags(core, v);
    core.pc = wrapping_add16(core.pc, 1);
}

/// INY: step Y up by one with 8-bit wraparound.
pub fn iny(core: &mut Core)
    requires
        old(core).well_formed(),
    ensures
        final(core).well_formed(),
        iny_rel(*old(core), *final(core)),
{
    core.iy = wrapping_add8(core.iy, 1);
    let v = core.iy;
    set_nz_flags(core, v);
    core.pc = wrapping_add16(core.pc, 1);
}

/// DEX: step X down by one with 8-bit wraparound.
pub fn dex(core: &mut Core)
    requires
        old(core).well_formed(),
    ensures
        final(core).well_formed(),
        dex_rel(*old(core), *final(core)),
{
    core.ix = wrapping_sub8(core.ix, 1);
    let v = core.ix;
    set_nz_flags(core, v);
    core.pc = wrapping_add16(core.pc, 1);
}

/// DEY: step Y down by one with 8-bit wraparound.
pub fn dey(core: &mut Core)
    requires
        old(core).well_formed(),
    ensures
        final(core).well_formed(),
        dey_rel(*old(core), *final(core)),
{
    core.iy = wrapping_sub8(core.iy, 1);
    let v = core.iy;
    set_nz_flags(core, v);
    core.pc = wrapping_add16(core.pc, 1);
}

/// PHA: push the accumulator onto the stack.
pub fn pha(core: &mut Core)
    requires
        old(core).well_formed(),
    ensures
        final(core).well_formed(),
        pha_rel(*old(core), *final(core)),
{
    let v = core.acc;
    write_mem(core, 0x100 + core.sp as u16, v);
    core.sp = wrapping_sub8(core.sp, 1);
    core.pc = wrapping_add16(core.pc, 1);
}

/// PHP: push the status register with the break flag forced on in the
/// pushed copy.
pub fn php(core: &mut Core)
    requires
        old(core).well_formed(),
    ensures
        final(core).well_formed(),
        php_rel(*old(core), *final(core)),
{
    let v = core.stat | 0x10;
    write_mem(core, 0x100 + core.sp as u16, v);
    core.sp = wrapping_sub8(core.sp, 1);
    core.pc = wrapping_add16(core.pc, 1);
}

/// PLA: pull the accumulator from the stack, zeroing the vacated slot.
pub fn pla(core: &mut Core)
    requires
        old(core).well_formed(),
    ensures
        final(core).well_formed(),
        pla_rel(*old(core), *final(core)),
{
    let slot = 0x100 + wrapping_add8(core.sp, 1) as u16;
    let v = read_mem(core, slot);
    write_mem(core, slot, 0x00);
    core.sp = wrapping_add8(core.sp, 1);
    core.acc = v;
    set_nz_flags(core, v);
    core.pc = wrapping_add16(core.pc, 1);
}

/// PLP: pull the status register from the stack, zeroing the vacated
/// slot.
pub fn plp(core: &mut Core)
    requires
        old(core).well_formed(),
    ensures
        final(core).well_formed(),
        plp_rel(*old(core), *final(core)),
{
    let slot = 0x100 + wrapping_add8(core.sp, 1) as u16;
    let v = read_mem(core, slot);
    write_mem(core, slot, 0x00);
    core.sp = wrapping_add8(core.sp, 1);
    core.stat = v;
    core.pc = wrapping_add16(core.pc, 1);
}

/// JMP: move the program counter to the absolute target, or through
/// the pointer for the indirect form.
pub fn jmp(core: &mut Core)
    requires
        old(core).well_formed(),
        is_jmp_op(old(core).ir),
    ensures
        final(core).well_formed(),
        jmp_rel(*old(core), *final(core)),
{
    match core.ir {
        0x4C => {
            core.pc = absolute(core);
        },
        _ => {
            core.pc = indirect(core);
        },
    }
}

/// JSR: push the address one before the return point, then jump to the
/// subroutine.
pub fn jsr(core: &mut Core)
    requires
        old(core).well_formed(),
        old(core).ir == 0x20,
    ensures
        final(core).well_formed(),
        jsr_rel(*old(core), *final(core)),
{
    let ret = wrapping_add16(core.pc, 2);
    let (retl, reth) = split_word(ret);
    let target = absolute(core);
    write_mem(core, 0x100 + core.sp as u16, reth);
    let low_slot = 0x100 + wrapping_sub8(core.sp, 1) as u16;
    write_mem(core, low_slot, retl);
    core.sp = wrapping_sub8(core.sp, 2);
    core.pc = target;
}

/// RTS: pull the return address and resume one byte past it.
pub fn rts(core: &mut Core)
    requires
        old(core).well_formed(),
        old(core).ir == 0x60,
    ensures
        final(core).well_formed(),
        rts_rel(*old(core), *final(core)),
{
    let pcl = read_mem(core, 0x100 + wrapping_add8(core.sp, 1) as u16);
    let pch = read_mem(core, 0x100 + wrapping_add8(core.sp, 2) as u16);
    core.sp = wrapping_add8(core.sp, 2);
    core.pc = wrapping_add16(make_word(pcl, pch), 1);
}

/// BRK: force the break flag, push the return address and the status,
/// and load the program counter from the interrupt vector.
pub fn brk(core: &mut Core)
    requires
        old(core).well_formed(),
        old(core).ir == 0x00,
    ensures
        final(core).well_formed(),
        brk_rel(*old(core), *final(core)),
{
    let ret = wrapping_add16(core.pc, 2);
    let (retl, reth) = split_word(ret);
    core.stat = core.stat | 0x10;
    let pushed = core.stat;
    write_mem(core, 0x100 + core.sp as u16, reth);
    let low_slot = 0x100 + wrapping_sub8(core.sp, 1) as u16;
    write_mem(core, low_slot, retl);
    let stat_slot = 0x100 + wrapping_sub8(core.sp, 2) as u16;
    write_mem(core, stat_slot, pushed);
    core.sp = wrapping_sub8(core.sp, 3);
    let pcl = read_mem(core, 0xFFFE);
    let pch = read_mem(core, 0xFFFF);
    core.pc = make_word(pcl, pch);
}

/// BIT: test the operand against the accumulator; only flags change.
pub fn bit(core: &mut Core)
    requires
        old(core).well_formed(),
        is_bit_op(old(core).ir),
    ensures
        final(core).well_formed(),
        bit_rel(*old(core), *final(core)),
{
    let mode: Mode = match core.ir {
        0x24 => Mode::ZeroPage,
        _ => Mode::Absolute,
    };
    let m = operand_value(core, mode);
    let st = set_flag(core.stat, FLAG_ZERO, (core.acc & m) == 0);
    let st = set_flag(st, FLAG_NEGATIVE, (m & 0x80) == 0x80);
    let st = set_flag(st, FLAG_OVERFLOW, (m & 0x40) == 0x40);
    core.stat = st;
    core.pc = wrapping_add16(core.pc, mode_length(mode));
}

/// RTI: interrupt handling beyond the BRK vector is out of this
/// model's scope, so returning from an interrupt leaves the state as
/// it is.
pub fn rti(core: &mut Core)
    requires
        old(core).well_formed(),
    ensures
        final(core).well_formed(),
        rti_rel(*old(core), *final(core)),
{
}

} // verus!
