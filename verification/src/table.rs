//! Instruction metadata: mnemonics, addressing modes, and the canonical
//! opcode table that assigns each defined opcode byte its metadata and
//! its handler.

use vstd::prelude::*;

verus! {

/// The operation named by an instruction.  A value of this enum also
/// serves as the dispatch tag that selects the handler to run.
#[derive(Clone, Copy, Debug, PartialEq, Eq, Structural)]
pub enum Mnemonic {
    Adc,
    And,
    Asl,
    Bcc,
    Bcs,
    Beq,
    Bit,
    Bmi,
    Bne,
    Bpl,
    Brk,
    Bvc,
    Bvs,
    Clc,
    Cld,
    Cli,
    Clv,
    Cmp,
    Cpx,
    Cpy,
    Dec,
    Dex,
    Dey,
    Eor,
    Inc,
    Inx,
    Iny,
    Jmp,
    Jsr,
    Lda,
    Ldx,
    Ldy,
    Lsr,
    Nop,
    Ora,
    Pha,
    Php,
    Pla,
    Plp,
    Rol,
    Ror,
    Rti,
    Rts,
    Sbc,
    Sec,
    Sed,
    Sei,
    Sta,
    Stx,
    Sty,
    Tax,
    Tay,
    Tsx,
    Txa,
    Txs,
    Tya,
}

/// How an instruction locates its operand.
#[derive(Clone, Copy, Debug, PartialEq, Eq, Structural)]
pub enum Mode {
    Accumulator,
    Implied,
    Immediate,
    ZeroPage,
    ZeroPageX,
    ZeroPageY,
    Absolute,
    AbsoluteX,
    AbsoluteY,
    Indirect,
    XIndirect,
    IndirectY,
    Relative,
}

/// The metadata record stored for one opcode: the mnemonic, the
/// addressing mode, the instruction length in bytes, the base cycle
/// count, and a mask of the status flags the instruction may change.
#[derive(Clone, Copy, Debug, PartialEq, Eq, Structural)]
pub struct Instruction {
    pub mnemonic: Mnemonic,
    pub mode: Mode,
    pub length: u8,
    pub cycles: u8,
    pub flags: u8,
}

/// The opcodes that select the ADC handler.
pub open spec fn is_adc_op(b: u8) -> bool {
    b == 0x69 || b == 0x65 || b == 0x75 || b == 0x6D || b == 0x7D || b == 0x79 || b == 0x61 || b
        == 0x71
}

/// The addressing mode of each ADC opcode.
pub open spec fn adc_mode(b: u8) -> Mode {
    if b == 0x69 {
        Mode::Immediate
    } else if b == 0x65 {
        Mode::ZeroPage
    } else if b == 0x75 {
        Mode::ZeroPageX
    } else if b == 0x6D {
        Mode::Absolute
    } else if b == 0x7D {
        Mode::AbsoluteX
    } else if b == 0x79 {
        Mode::AbsoluteY
    } else if b == 0x61 {
        Mode::XIndirect
    } else {
        Mode::IndirectY
    }
}

/// The opcodes that select the AND handler.
pub open spec fn is_and_op(b: u8) -> bool {
    b == 0x29 || b == 0x25 || b == 0x35 || b == 0x2D || b == 0x3D || b == 0x39 || b == 0x21 || b
        == 0x31
}

/// The addressing mode of each AND opcode.
pub open spec fn and_mode(b: u8) -> Mode {
    if b == 0x29 {
        Mode::Immediate
    } else if b == 0x25 {
        Mode::ZeroPage
    } else if b == 0x35 {
        Mode::ZeroPageX
    } else if b == 0x2D {
        Mode::Absolute
    } else if b == 0x3D {
        Mode::AbsoluteX
    } else if b == 0x39 {
        Mode::AbsoluteY
    } else if b == 0x21 {
        Mode::XIndirect
    } else {
        Mode::IndirectY
    }
}

/// The opcodes that select the ASL handler.
pub open spec fn is_asl_op(b: u8) -> bool {
    b == 0x0A || b == 0x06 || b == 0x16 || b == 0x0E || b == 0x1E
}

/// The addressing mode of each ASL opcode.
pub open spec fn asl_mode(b: u8) -> Mode {
    if b == 0x0A {
        Mode::Accumulator
    } else if b == 0x06 {
        Mode::ZeroPage
    } else if b == 0x16 {
        Mode::ZeroPageX
    } else if b == 0x0E {
        Mode::Absolute
    } else {
        Mode::AbsoluteX
    }
}

/// The opcodes that select the BIT handler.
pub open spec fn is_bit_op(b: u8) -> bool {
    b == 0x24 || b == 0x2C
}

/// The addressing mode of each BIT opcode.
pub open spec fn bit_mode(b: u8) -> Mode {
    if b == 0x24 {
        Mode::ZeroPage
    } else {
        Mode::Absolute
    }
}

/// The opcodes that select the CMP handler.
pub open spec fn is_cmp_op(b: u8) -> bool {
    b == 0xC9 || b == 0xC5 || b == 0xD5 || b == 0xCD || b == 0xDD || b == 0xD9 || b == 0xC1 || b
        == 0xD1
}

/// The addressing mode of each CMP opcode.
pub open spec fn cmp_mode(b: u8) -> Mode {
    if b == 0xC9 {
        Mode::Immediate
    } else if b == 0xC5 {
        Mode::ZeroPage
    } else if b == 0xD5 {
        Mode::ZeroPageX
    } else if b == 0xCD {
        Mode::Absolute
    } else if b == 0xDD {
        Mode::AbsoluteX
    } else if b == 0xD9 {
        Mode::AbsoluteY
    } else if b == 0xC1 {
        Mode::XIndirect
    } else {
        Mode::IndirectY
    }
}

/// The opcodes that select the CPX handler.
pub open spec fn is_cpx_op(b: u8) -> bool {
    b == 0xE0 || b == 0xE4 || b == 0xEC
}

/// The addressing mode of each CPX opcode.
pub open spec fn cpx_mode(b: u8) -> Mode {
    if b == 0xE0 {
        Mode::Immediate
    } else if b == 0xE4 {
        Mode::ZeroPage
    } else {
        Mode::Absolute
    }
}

/// The opcodes that select the CPY handler.
pub open spec fn is_cpy_op(b: u8) -> bool {
    b == 0xC0 || b == 0xC4 || b == 0xCC
}

/// The addressing mode of each CPY opcode.
pub open spec fn cpy_mode(b: u8) -> Mode {
    if b == 0xC0 {
        Mode::Immediate
    } else if b == 0xC4 {
        Mode::ZeroPage
    } else {
        Mode::Absolute
    }
}

/// The opcodes that select the DEC handler.
pub open spec fn is_dec_op(b: u8) -> bool {
    b == 0xC6 || b == 0xD6 || b == 0xCE || b == 0xDE
}

/// The addressing mode of each DEC opcode.
pub open spec fn dec_mode(b: u8) -> Mode {
    if b == 0xC6 {
        Mode::ZeroPage
    } else if b == 0xD6 {
        Mode::ZeroPageX
    } else if b == 0xCE {
        Mode::Absolute
    } else {
        Mode::AbsoluteX
    }
}

/// The opcodes that select the EOR handler.
pub open spec fn is_eor_op(b: u8) -> bool {
    b == 0x49 || b == 0x45 || b == 0x55 || b == 0x4D || b == 0x5D || b == 0x59 || b == 0x41 || b
        == 0x51
}

/// The addressing mode of each EOR opcode.
pub open spec fn eor_mode(b: u8) -> Mode {
    if b == 0x49 {
        Mode::Immediate
    } else if b == 0x45 {
        Mode::ZeroPage
    } else if b == 0x55 {
        Mode::ZeroPageX
    } else if b == 0x4D {
        Mode::Absolute
    } else if b == 0x5D {
        Mode::AbsoluteX
    } else if b == 0x59 {
        Mode::AbsoluteY
    } else if b == 0x41 {
        Mode::XIndirect
    } else {
        Mode::IndirectY
    }
}

/// The opcodes that select the INC handler.
pub open spec fn is_inc_op(b: u8) -> bool {
    b == 0xE6 || b == 0xF6 || b == 0xEE || b == 0xFE
}

/// The addressing mode of each INC opcode.
pub open spec fn inc_mode(b: u8) -> Mode {
    if b == 0xE6 {
        Mode::ZeroPage
    } else if b == 0xF6 {
        Mode::ZeroPageX
    } else if b == 0xEE {
        Mode::Absolute
    } else {
        Mode::AbsoluteX
    }
}

/// The opcodes that select the JMP handler.
pub open spec fn is_jmp_op(b: u8) -> bool {
    b == 0x4C || b == 0x6C
}

/// The opcodes that select the LDA handler.
pub open spec fn is_lda_op(b: u8) -> bool {
    b == 0xA9 || b == 0xA5 || b == 0xB5 || b == 0xAD || b == 0xBD || b == 0xB9 || b == 0xA1 || b
        == 0xB1
}

/// The addressing mode of each LDA opcode.
pub open spec fn lda_mode(b: u8) -> Mode {
    if b == 0xA9 {
        Mode::Immediate
    } else if b == 0xA5 {
        Mode::ZeroPage
    } else if b == 0xB5 {
        Mode::ZeroPageX
    } else if b == 0xAD {
        Mode::Absolute
    } else if b == 0xBD {
        Mode::AbsoluteX
    } else if b == 0xB9 {
        Mode::AbsoluteY
    } else if b == 0xA1 {
        Mode::XIndirect
    } else {
        Mode::IndirectY
    }
}

/// The opcodes that select the LDX handler.
pub open spec fn is_ldx_op(b: u8) -> bool {
    b == 0xA2 || b == 0xA6 || b == 0xB6 || b == 0xAE || b == 0xBE
}

/// The addressing mode of each LDX opcode.
pub open spec fn ldx_mode(b: u8) -> Mode {
    if b == 0xA2 {
        Mode::Immediate
    } else if b == 0xA6 {
        Mode::ZeroPage
    } else if b == 0xB6 {
        Mode::ZeroPageY
    } else if b == 0xAE {
        Mode::Absolute
    } else {
        Mode::AbsoluteY
    }
}

/// The opcodes that select the LDY handler.
pub open spec fn is_ldy_op(b: u8) -> bool {
    b == 0xA0 || b == 0xA4 || b == 0xB4 || b == 0xAC || b == 0xBC
}

/// The addressing mode of each LDY opcode.
pub open spec fn ldy_mode(b: u8) -> Mode {
    if b == 0xA0 {
        Mode::Immediate
    } else if b == 0xA4 {
        Mode::ZeroPage
    } else if b == 0xB4 {
        Mode::ZeroPageX
    } else if b == 0xAC {
        Mode::Absolute
    } else {
        Mode::AbsoluteX
    }
}

/// The opcodes that select the LSR handler.
pub open spec fn is_lsr_op(b: u8) -> bool {
    b == 0x4A || b == 0x46 || b == 0x56 || b == 0x4E || b == 0x5E
}

/// The addressing mode of each LSR opcode.
pub open spec fn lsr_mode(b: u8) -> Mode {
    if b == 0x4A {
        Mode::Accumulator
    } else if b == 0x46 {
        Mode::ZeroPage
    } else if b == 0x56 {
        Mode::ZeroPageX
    } else if b == 0x4E {
        Mode::Absolute
    } else {
        Mode::AbsoluteX
    }
}

/// The opcodes that select the ORA handler.
pub open spec fn is_ora_op(b: u8) -> bool {
    b == 0x09 || b == 0x05 || b == 0x15 || b == 0x0D || b == 0x1D || b == 0x19 || b == 0x01 || b
        == 0x11
}

/// The addressing mode of each ORA opcode.
pub open spec fn ora_mode(b: u8) -> Mode {
    if b == 0x09 {
        Mode::Immediate
    } else if b == 0x05 {
        Mode::ZeroPage
    } else if b == 0x15 {
        Mode::ZeroPageX
    } else if b == 0x0D {
        Mode::Absolute
    } else if b == 0x1D {
        Mode::AbsoluteX
    } else if b == 0x19 {
        Mode::AbsoluteY
    } else if b == 0x01 {
        Mode::XIndirect
    } else {
        Mode::IndirectY
    }
}

/// The opcodes that select the ROL handler.
pub open spec fn is_rol_op(b: u8) -> bool {
    b == 0x2A || b == 0x26 || b == 0x36 || b == 0x2E || b == 0x3E
}

/// The addressing mode of each ROL opcode.
pub open spec fn rol_mode(b: u8) -> Mode {
    if b == 0x2A {
        Mode::Accumulator
    } else if b == 0x26 {
        Mode::ZeroPage
    } else if b == 0x36 {
        Mode::ZeroPageX
    } else if b == 0x2E {
        Mode::Absolute
    } else {
        Mode::AbsoluteX
    }
}

/// The opcodes that select the ROR handler.
pub open spec fn is_ror_op(b: u8) -> bool {
    b == 0x6A || b == 0x66 || b == 0x76 || b == 0x6E || b == 0x7E
}

/// The addressing mode of each ROR opcode.
pub open spec fn ror_mode(b: u8) -> Mode {
    if b == 0x6A {
        Mode::Accumulator
    } else if b == 0x66 {
        Mode::ZeroPage
    } else if b == 0x76 {
        Mode::ZeroPageX
    } else if b == 0x6E {
        Mode::Absolute
    } else {
        Mode::AbsoluteX
    }
}

/// The opcodes that select the SBC handler.
pub open spec fn is_sbc_op(b: u8) -> bool {
    b == 0xE9 || b == 0xE5 || b == 0xF5 || b == 0xED || b == 0xFD || b == 0xF9 || b == 0xE1 || b
        == 0xF1
}

/// The addressing mode of each SBC opcode.
pub open spec fn sbc_mode(b: u8) -> Mode {
    if b == 0xE9 {
        Mode::Immediate
    } else if b == 0xE5 {
        Mode::ZeroPage
    } else if b == 0xF5 {
        Mode::ZeroPageX
    } else if b == 0xED {
        Mode::Absolute
    } else if b == 0xFD {
        Mode::AbsoluteX
    } else if b == 0xF9 {
        Mode::AbsoluteY
    } else if b == 0xE1 {
        Mode::XIndirect
    } else {
        Mode::IndirectY
    }
}

/// The opcodes that select the STA handler.
pub open spec fn is_sta_op(b: u8) -> bool {
    b == 0x85 || b == 0x95 || b == 0x8D || b == 0x9D || b == 0x99 || b == 0x81 || b == 0x91
}

/// The addressing mode of each STA opcode.
pub open spec fn sta_mode(b: u8) -> Mode {
    if b == 0x85 {
        Mode::ZeroPage
    } else if b == 0x95 {
        Mode::ZeroPageX
    } else if b == 0x8D {
        Mode::Absolute
    } else if b == 0x9D {
        Mode::AbsoluteX
    } else if b == 0x99 {
        Mode::AbsoluteY
    } else if b == 0x81 {
        Mode::XIndirect
    } else {
        Mode::IndirectY
    }
}

/// The opcodes that select the STX handler.
pub open spec fn is_stx_op(b: u8) -> bool {
    b == 0x86 || b == 0x96 || b == 0x8E
}

/// The addressing mode of each STX opcode.
pub open spec fn stx_mode(b: u8) -> Mode {
    if b == 0x86 {
        Mode::ZeroPage
    } else if b == 0x96 {
        Mode::ZeroPageY
    } else {
        Mode::Absolute
    }
}

/// The opcodes that select the STY handler.
pub open spec fn is_sty_op(b: u8) -> bool {
    b == 0x84 || b == 0x94 || b == 0x8C
}

/// The addressing mode of each STY opcode.
pub open spec fn sty_mode(b: u8) -> Mode {
    if b == 0x84 {
        Mode::ZeroPage
    } else if b == 0x94 {
        Mode::ZeroPageX
    } else {
        Mode::Absolute
    }
}

/// Base cycle count of an instruction that reads its operand.
pub open spec fn read_cycles(mode: Mode) -> u8 {
    match mode {
        Mode::Immediate => 2,
        Mode::ZeroPage => 3,
        Mode::ZeroPageX => 4,
        Mode::ZeroPageY => 4,
        Mode::Absolute => 4,
        Mode::AbsoluteX => 4,
        Mode::AbsoluteY => 4,
        Mode::XIndirect => 6,
        Mode::IndirectY => 5,
        _ => 0,
    }
}

/// Base cycle count of an instruction that modifies its operand in
/// place.
pub open spec fn rmw_cycles(mode: Mode) -> u8 {
    match mode {
        Mode::Accumulator => 2,
        Mode::ZeroPage => 5,
        Mode::ZeroPageX => 6,
        Mode::Absolute => 6,
        Mode::AbsoluteX => 7,
        _ => 0,
    }
}

/// Base cycle count of an instruction that stores a register.
pub open spec fn store_cycles(mode: Mode) -> u8 {
    match mode {
        Mode::ZeroPage => 3,
        Mode::ZeroPageX => 4,
        Mode::ZeroPageY => 4,
        Mode::Absolute => 4,
        Mode::AbsoluteX => 5,
        Mode::AbsoluteY => 5,
        Mode::XIndirect => 6,
        Mode::IndirectY => 6,
        _ => 0,
    }
}

/// Builds the metadata record for one opcode.
pub open spec fn entry(mnemonic: Mnemonic, mode: Mode, cycles: u8, flags: u8) -> Instruction {
    Instruction { mnemonic, mode, length: mode_len(mode) as u8, cycles, flags }
}

/// The canonical opcode table: the metadata of every defined opcode, and
/// `None` for each of the byte values the processor does not document.
pub open spec fn opcode_entry(b: u8) -> Option<Instruction> {
    if is_adc_op(b) {
        Some(entry(Mnemonic::Adc, adc_mode(b), read_cycles(adc_mode(b)), 0xC3))
    } else if is_and_op(b) {
        Some(entry(Mnemonic::And, and_mode(b), read_cycles(and_mode(b)), 0x82))
    } else if is_asl_op(b) {
        Some(entry(Mnemonic::Asl, asl_mode(b), rmw_cycles(asl_mode(b)), 0x83))
    } else if b == 0x90 {
        Some(entry(Mnemonic::Bcc, Mode::Relative, 2, 0x00))
    } else if b == 0xB0 {
        Some(entry(Mnemonic::Bcs, Mode::Relative, 2, 0x00))
    } else if b == 0xF0 {
        Some(entry(Mnemonic::Beq, Mode::Relative, 2, 0x00))
    } else if b == 0x30 {
        Some(entry(Mnemonic::Bmi, Mode::Relative, 2, 0x00))
    } else if b == 0xD0 {
        Some(entry(Mnemonic::Bne, Mode::Relative, 2, 0x00))
    } else if b == 0x10 {
        Some(entry(Mnemonic::Bpl, Mode::Relative, 2, 0x00))
    } else if b == 0x50 {
        Some(entry(Mnemonic::Bvc, Mode::Relative, 2, 0x00))
    } else if b == 0x70 {
        Some(entry(Mnemonic::Bvs, Mode::Relative, 2, 0x00))
    } else if is_bit_op(b) {
        Some(entry(Mnemonic::Bit, bit_mode(b), read_cycles(bit_mode(b)), 0xC2))
    } else if b == 0x00 {
        Some(entry(Mnemonic::Brk, Mode::Implied, 7, 0x00))
    } else if b == 0x18 {
        Some(entry(Mnemonic::Clc, Mode::Implied, 2, 0x01))
    } else if b == 0xD8 {
        Some(entry(Mnemonic::Cld, Mode::Implied, 2, 0x08))
    } else if b == 0x58 {
        Some(entry(Mnemonic::Cli, Mode::Implied, 2, 0x04))
    } else if b == 0xB8 {
        Some(entry(Mnemonic::Clv, Mode::Implied, 2, 0x40))
    } else if b == 0xEA {
        Some(entry(Mnemonic::Nop, Mode::Implied, 2, 0x00))
    } else if b == 0x48 {
        Some(entry(Mnemonic::Pha, Mode::Implied, 3, 0x00))
    } else if b == 0x68 {
        Some(entry(Mnemonic::Pla, Mode::Implied, 4, 0x82))
    } else if b == 0x08 {
        Some(entry(Mnemonic::Php, Mode::Implied, 3, 0x00))
    } else if b == 0x28 {
        Some(entry(Mnemonic::Plp, Mode::Implied, 4, 0xDF))
    } else if b == 0x40 {
        Some(entry(Mnemonic::Rti, Mode::Implied, 6, 0x00))
    } else if b == 0x60 {
        Some(entry(Mnemonic::Rts, Mode::Implied, 6, 0x00))
    } else if b == 0x38 {
        Some(entry(Mnemonic::Sec, Mode::Implied, 2, 0x01))
    } else if b == 0xF8 {
        Some(entry(Mnemonic::Sed, Mode::Implied, 2, 0x08))
    } else if b == 0x78 {
        Some(entry(Mnemonic::Sei, Mode::Implied, 2, 0x04))
    } else if b == 0xAA {
        Some(entry(Mnemonic::Tax, Mode::Implied, 2, 0x82))
    } else if b == 0x8A {
        Some(entry(Mnemonic::Txa, Mode::Implied, 2, 0x82))
    } else if b == 0xA8 {
        Some(entry(Mnemonic::Tay, Mode::Implied, 2, 0x82))
    } else if b == 0x98 {
        Some(entry(Mnemonic::Tya, Mode::Implied, 2, 0x82))
    } else if b == 0xBA {
        Some(entry(Mnemonic::Tsx, Mode::Implied, 2, 0x82))
    } else if b == 0x9A {
        Some(entry(Mnemonic::Txs, Mode::Implied, 2, 0x00))
    } else if is_cmp_op(b) {
        Some(entry(Mnemonic::Cmp, cmp_mode(b), read_cycles(cmp_mode(b)), 0x83))
    } else if is_cpx_op(b) {
        Some(entry(Mnemonic::Cpx, cpx_mode(b), read_cycles(cpx_mode(b)), 0x83))
    } else if is_cpy_op(b) {
        Some(entry(Mnemonic::Cpy, cpy_mode(b), read_cycles(cpy_mode(b)), 0x83))
    } else if is_dec_op(b) {
        Some(entry(Mnemonic::Dec, dec_mode(b), rmw_cycles(dec_mode(b)), 0x82))
    } else if b == 0xCA {
        Some(entry(Mnemonic::Dex, Mode::Implied, 2, 0x82))
    } else if b == 0x88 {
        Some(entry(Mnemonic::Dey, Mode::Implied, 2, 0x82))
    } else if b == 0xE8 {
        Some(entry(Mnemonic::Inx, Mode::Implied, 2, 0x82))
    } else if b == 0xC8 {
        Some(entry(Mnemonic::Iny, Mode::Implied, 2, 0x82))
    } else if is_eor_op(b) {
        Some(entry(Mnemonic::Eor, eor_mode(b), read_cycles(eor_mode(b)), 0x82))
    } else if is_inc_op(b) {
        Some(entry(Mnemonic::Inc, inc_mode(b), rmw_cycles(inc_mode(b)), 0x82))
    } else if b == 0x4C {
        Some(entry(Mnemonic::Jmp, Mode::Absolute, 3, 0x00))
    } else if b == 0x6C {
        Some(entry(Mnemonic::Jmp, Mode::Indirect, 5, 0x00))
    } else if b == 0x20 {
        Some(entry(Mnemonic::Jsr, Mode::Absolute, 6, 0x00))
    } else if is_lda_op(b) {
        Some(entry(Mnemonic::Lda, lda_mode(b), read_cycles(lda_mode(b)), 0x82))
    } else if is_ldx_op(b) {
        Some(entry(Mnemonic::Ldx, ldx_mode(b), read_cycles(ldx_mode(b)), 0x82))
    } else if is_ldy_op(b) {
        Some(entry(Mnemonic::Ldy, ldy_mode(b), read_cycles(ldy_mode(b)), 0x82))
    } else if is_lsr_op(b) {
        Some(entry(Mnemonic::Lsr, lsr_mode(b), rmw_cycles(lsr_mode(b)), 0x83))
    } else if is_ora_op(b) {
        Some(entry(Mnemonic::Ora, ora_mode(b), read_cycles(ora_mode(b)), 0x82))
    } else if is_rol_op(b) {
        Some(entry(Mnemonic::Rol, rol_mode(b), rmw_cycles(rol_mode(b)), 0x83))
    } else if is_ror_op(b) {
        Some(entry(Mnemonic::Ror, ror_mode(b), rmw_cycles(ror_mode(b)), 0x83))
    } else if is_sbc_op(b) {
        Some(entry(Mnemonic::Sbc, sbc_mode(b), read_cycles(sbc_mode(b)), 0xC3))
    } else if is_sta_op(b) {
        Some(entry(Mnemonic::Sta, sta_mode(b), store_cycles(sta_mode(b)), 0x00))
    } else if is_stx_op(b) {
        Some(entry(Mnemonic::Stx, stx_mode(b), store_cycles(stx_mode(b)), 0x00))
    } else if is_sty_op(b) {
        Some(entry(Mnemonic::Sty, sty_mode(b), store_cycles(sty_mode(b)), 0x00))
    } else {
        None
    }
}

/// True exactly on the 151 documented opcode bytes.
pub open spec fn is_defined_opcode(b: u8) -> bool {
    opcode_entry(b) is Some
}

/// The handler the canonical table selects for an opcode byte.
pub open spec fn opcode_handler(b: u8) -> Option<Mnemonic> {
    match opcode_entry(b) {
        Some(i) => Some(i.mnemonic),
        None => None,
    }
}

/// The opcodes on which the handler tagged `m` may run.
pub open spec fn handler_matches(b: u8, m: Mnemonic) -> bool {
    match m {
        Mnemonic::Adc => is_adc_op(b),
        Mnemonic::And => is_and_op(b),
        Mnemonic::Asl => is_asl_op(b),
        Mnemonic::Bcc => b == 0x90,
        Mnemonic::Bcs => b == 0xB0,
        Mnemonic::Beq => b == 0xF0,
        Mnemonic::Bit => is_bit_op(b),
        Mnemonic::Bmi => b == 0x30,
        Mnemonic::Bne => b == 0xD0,
        Mnemonic::Bpl => b == 0x10,
        Mnemonic::Brk => b == 0x00,
        Mnemonic::Bvc => b == 0x50,
        Mnemonic::Bvs => b == 0x70,
        Mnemonic::Clc => b == 0x18,
        Mnemonic::Cld => b == 0xD8,
        Mnemonic::Cli => b == 0x58,
        Mnemonic::Clv => b == 0xB8,
        Mnemonic::Cmp => is_cmp_op(b),
        Mnemonic::Cpx => is_cpx_op(b),
        Mnemonic::Cpy => is_cpy_op(b),
        Mnemonic::Dec => is_dec_op(b),
        Mnemonic::Dex => b == 0xCA,
        Mnemonic::Dey => b == 0x88,
        Mnemonic::Eor => is_eor_op(b),
        Mnemonic::Inc => is_inc_op(b),
        Mnemonic::Inx => b == 0xE8,
        Mnemonic::Iny => b == 0xC8,
        Mnemonic::Jmp => is_jmp_op(b),
        Mnemonic::Jsr => b == 0x20,
        Mnemonic::Lda => is_lda_op(b),
        Mnemonic::Ldx => is_ldx_op(b),
        Mnemonic::Ldy => is_ldy_op(b),
        Mnemonic::Lsr => is_lsr_op(b),
        Mnemonic::Nop => b == 0xEA,
        Mnemonic::Ora => is_ora_op(b),
        Mnemonic::Pha => b == 0x48,
        Mnemonic::Php => b == 0x08,
        Mnemonic::Pla => b == 0x68,
        Mnemonic::Plp => b == 0x28,
        Mnemonic::Rol => is_rol_op(b),
        Mnemonic::Ror => is_ror_op(b),
        Mnemonic::Rti => b == 0x40,
        Mnemonic::Rts => b == 0x60,
        Mnemonic::Sbc => is_sbc_op(b),
        Mnemonic::Sec => b == 0x38,
        Mnemonic::Sed => b == 0xF8,
        Mnemonic::Sei => b == 0x78,
        Mnemonic::Sta => is_sta_op(b),
        Mnemonic::Stx => is_stx_op(b),
        Mnemonic::Sty => is_sty_op(b),
        Mnemonic::Tax => b == 0xAA,
        Mnemonic::Tay => b == 0xA8,
        Mnemonic::Tsx => b == 0xBA,
        Mnemonic::Txa => b == 0x8A,
        Mnemonic::Txs => b == 0x9A,
        Mnemonic::Tya => b == 0x98,
    }
}

/// Whatever handler the canonical table selects for an opcode byte may
/// indeed run on that byte: dispatch through the table always hands a
/// handler an opcode it has a case for.
pub proof fn lemma_dispatch_consistent(b: u8)
    ensures
        opcode_handler(b) matches Some(m) ==> handler_matches(b, m),
{
}

/// How many bytes an instruction in the given mode occupies.
pub open spec fn mode_len(mode: Mode) -> u16 {
    match mode {
        Mode::Accumulator => 1,
        Mode::Implied => 1,
        Mode::Immediate => 2,
        Mode::ZeroPage => 2,
        Mode::ZeroPageX => 2,
        Mode::ZeroPageY => 2,
        Mode::Absolute => 3,
        Mode::AbsoluteX => 3,
        Mode::AbsoluteY => 3,
        Mode::Indirect => 3,
        Mode::XIndirect => 2,
        Mode::IndirectY => 2,
        Mode::Relative => 2,
    }
}


/// Every table entry's length field agrees with its addressing mode,
/// and its mnemonic with the handler the table dispatches to, so a
/// disassembler that skips by the metadata stays in lockstep with the
/// handlers, which advance the program counter by the mode's length.
pub proof fn lemma_metadata_consistent(b: u8)
    ensures
        opcode_entry(b) matches Some(i) ==> i.length == mode_len(i.mode) && opcode_handler(b)
            == Some(i.mnemonic),
{
}

/// Builds the metadata record for one opcode at table-construction
/// time.
pub(crate) fn entry_of(mnemonic: Mnemonic, mode: Mode, cycles: u8, flags: u8) -> (i: Instruction)
    ensures
        i == entry(mnemonic, mode, cycles, flags),
{
    Instruction { mnemonic, mode, length: mode_length(mode) as u8, cycles, flags }
}

/// How many bytes an instruction in the given mode occupies.
pub(crate) fn mode_length(mode: Mode) -> (l: u16)
    ensures
        l == mode_len(mode),
{
    match mode {
        Mode::Accumulator => 1,
        Mode::Implied => 1,
        Mode::Immediate => 2,
        Mode::ZeroPage => 2,
        Mode::ZeroPageX => 2,
        Mode::ZeroPageY => 2,
        Mode::Absolute => 3,
        Mode::AbsoluteX => 3,
        Mode::AbsoluteY => 3,
        Mode::Indirect => 3,
        Mode::XIndirect => 2,
        Mode::IndirectY => 2,
        Mode::Relative => 2,
    }
}

} // verus!
