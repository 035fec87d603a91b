//! Addressing-mode resolvers: pure readers that map the processor state,
//! positioned at an opcode byte, to the operand address or value that the
//! instruction works on.  They never change the state; the calling
//! handler owns every register update.
//!
//! Operand bytes are read at `pc + 1` and `pc + 2`, wrapping around the
//! 16-bit program counter as the hardware's 16-bit address arithmetic
//! does.

use crate::arith::{add16, make_word, to_signed, word, wrap8, wrapping_add16, wrapping_add8};
use crate::system::{read_mem, spec_mem, Core};
use crate::table::Mode;
use vstd::prelude::*;

verus! {

/// The operand byte directly after the opcode.
pub open spec fn spec_operand(c: Core) -> u8 {
    spec_mem(c, add16(c.pc, 1))
}

/// The second operand byte after the opcode.
pub open spec fn spec_operand2(c: Core) -> u8 {
    spec_mem(c, add16(c.pc, 2))
}

/// The zero-page address named by a zero-page instruction.
pub open spec fn spec_zero_page(c: Core) -> u8 {
    spec_operand(c)
}

/// The zero-page address plus X, wrapping at 8 bits: zero-page indexed
/// addressing never leaves page zero.
pub open spec fn spec_zero_page_x(c: Core) -> u8 {
    wrap8(spec_operand(c), c.ix)
}

/// The zero-page address plus Y, wrapping at 8 bits.
pub open spec fn spec_zero_page_y(c: Core) -> u8 {
    wrap8(spec_operand(c), c.iy)
}

/// The 16-bit little-endian address named by an absolute instruction.
pub open spec fn spec_absolute(c: Core) -> u16 {
    word(spec_operand(c), spec_operand2(c))
}

/// The absolute address plus X, as a 16-bit value.
pub open spec fn spec_absolute_x(c: Core) -> u16 {
    add16(spec_absolute(c), c.ix as u16)
}

/// The absolute address plus Y, as a 16-bit value.
pub open spec fn spec_absolute_y(c: Core) -> u16 {
    add16(spec_absolute(c), c.iy as u16)
}

/// A 16-bit little-endian value read from two consecutive addresses.
pub open spec fn spec_read16(c: Core, addr: u16) -> u16 {
    word(spec_mem(c, addr), spec_mem(c, add16(addr, 1)))
}

/// A 16-bit little-endian value read from the zero page; the second
/// byte wraps within page zero.
pub open spec fn spec_read16_zp(c: Core, zp: u8) -> u16 {
    word(spec_mem(c, zp as u16), spec_mem(c, wrap8(zp, 1) as u16))
}

/// The target of an indirect jump: the 16-bit pointer at the absolute
/// address is itself dereferenced for the final 16-bit target.  The
/// pointer's high byte is read at the next address with 16-bit wrap; the
/// hardware's quirk of re-reading within one page is deliberately not
/// modeled.
pub open spec fn spec_indirect(c: Core) -> u16 {
    spec_read16(c, spec_absolute(c))
}

/// The effective address of indexed-indirect (`(zp,X)`) addressing: the
/// zero-page byte plus X locates a 16-bit pointer inside page zero.
pub open spec fn spec_x_indirect_addr(c: Core) -> u16 {
    spec_read16_zp(c, spec_zero_page_x(c))
}

/// The effective address of indirect-indexed (`(zp),Y`) addressing: the
/// 16-bit base pointer read from page zero, plus Y with 16-bit wrap.
pub open spec fn spec_indirect_y_addr(c: Core) -> u16 {
    add16(spec_read16_zp(c, spec_zero_page(c)), c.iy as u16)
}

/// The effective operand address for each mode that names one.
pub open spec fn spec_addr_by_mode(c: Core, mode: Mode) -> u16 {
    match mode {
        Mode::ZeroPage => spec_zero_page(c) as u16,
        Mode::ZeroPageX => spec_zero_page_x(c) as u16,
        Mode::ZeroPageY => spec_zero_page_y(c) as u16,
        Mode::Absolute => spec_absolute(c),
        Mode::AbsoluteX => spec_absolute_x(c),
        Mode::AbsoluteY => spec_absolute_y(c),
        Mode::XIndirect => spec_x_indirect_addr(c),
        Mode::IndirectY => spec_indirect_y_addr(c),
        _ => 0,
    }
}

/// The operand value an instruction in the given mode reads.
pub open spec fn spec_value_by_mode(c: Core, mode: Mode) -> u8 {
    if mode is Immediate {
        spec_operand(c)
    } else {
        spec_mem(c, spec_addr_by_mode(c, mode))
    }
}

/// Reads the first operand byte.
pub(crate) fn operand(core: &Core) -> (v: u8)
    requires
        core.well_formed(),
    ensures
        v == spec_operand(*core),
{
    read_mem(core, wrapping_add16(core.pc, 1))
}

/// Reads the second operand byte.
pub(crate) fn operand2(core: &Core) -> (v: u8)
    requires
        core.well_formed(),
    ensures
        v == spec_operand2(*core),
{
    read_mem(core, wrapping_add16(core.pc, 2))
}

/// Resolves zero-page addressing to its one-byte address.
pub fn zero_page(core: &Core) -> (addr: u8)
    requires
        core.well_formed(),
    ensures
        addr == spec_zero_page(*core),
{
    operand(core)
}

/// Resolves zero-page,X addressing: the operand byte plus X, wrapping
/// at 8 bits.
pub fn zero_page_x(core: &Core) -> (addr: u8)
    requires
        core.well_formed(),
    ensures
        addr == spec_zero_page_x(*core),
{
    wrapping_add8(operand(core), core.ix)
}

/// Resolves zero-page,Y addressing: the operand byte plus Y, wrapping
/// at 8 bits.
pub fn zero_page_y(core: &Core) -> (addr: u8)
    requires
        core.well_formed(),
    ensures
        addr == spec_zero_page_y(*core),
{
    wrapping_add8(operand(core), core.iy)
}

/// Resolves absolute addressing to its 16-bit little-endian address.
pub fn absolute(core: &Core) -> (addr: u16)
    requires
        core.well_formed(),
    ensures
        addr == spec_absolute(*core),
{
    let pcl = operand(core);
    let pch = operand2(core);
    make_word(pcl, pch)
}

/// Resolves absolute,X addressing: the absolute address plus X as a
/// 16-bit value.
pub fn absolute_x(core: &Core) -> (addr: u16)
    requires
        core.well_formed(),
    ensures
        addr == spec_absolute_x(*core),
{
    wrapping_add16(absolute(core), core.ix as u16)
}

/// Resolves absolute,Y addressing: the absolute address plus Y as a
/// 16-bit value.
pub fn absolute_y(core: &Core) -> (addr: u16)
    requires
        core.well_formed(),
    ensures
        addr == spec_absolute_y(*core),
{
    wrapping_add16(absolute(core), core.iy as u16)
}

/// Reads a 16-bit little-endian value from two consecutive addresses.
pub(crate) fn read16(core: &Core, addr: u16) -> (v: u16)
    requires
        core.well_formed(),
    ensures
        v == spec_read16(*core, addr),
{
    let lo = read_mem(core, addr);
    let hi = read_mem(core, wrapping_add16(addr, 1));
    make_word(lo, hi)
}

/// Reads a 16-bit little-endian value from page zero, the second byte
/// wrapping within the page.
pub(crate) fn read16_zp(core: &Core, zp: u8) -> (v: u16)
    requires
        core.well_formed(),
    ensures
        v == spec_read16_zp(*core, zp),
{
    let lo = read_mem(core, zp as u16);
    let hi = read_mem(core, wrapping_add8(zp, 1) as u16);
    make_word(lo, hi)
}

/// Resolves indirect addressing (used only by the indirect jump): the
/// 16-bit target read from the location the absolute address points at.
pub fn indirect(core: &Core) -> (addr: u16)
    requires
        core.well_formed(),
    ensures
        addr == spec_indirect(*core),
{
    let pointer = absolute(core);
    read16(core, pointer)
}

/// Resolves indexed-indirect (`(zp,X)`) addressing to the operand value.
pub fn x_indirect(core: &Core) -> (v: u8)
    requires
        core.well_formed(),
    ensures
        v == spec_mem(*core, spec_x_indirect_addr(*core)),
{
    let target = x_indirect_addr(core);
    read_mem(core, target)
}

/// Resolves indexed-indirect (`(zp,X)`) addressing to the effective
/// address, for instructions that write through it.
pub(crate) fn x_indirect_addr(core: &Core) -> (addr: u16)
    requires
        core.well_formed(),
    ensures
        addr == spec_x_indirect_addr(*core),
{
    let zpx = zero_page_x(core);
    read16_zp(core, zpx)
}

/// Resolves indirect-indexed (`(zp),Y`) addressing to the operand value.
pub fn indirect_y(core: &Core) -> (v: u8)
    requires
        core.well_formed(),
    ensures
        v == spec_mem(*core, spec_indirect_y_addr(*core)),
{
    let target = indirect_y_addr(core);
    read_mem(core, target)
}

/// Resolves indirect-indexed (`(zp),Y`) addressing to the effective
/// address, for instructions that write through it.
pub(crate) fn indirect_y_addr(core: &Core) -> (addr: u16)
    requires
        core.well_formed(),
    ensures
        addr == spec_indirect_y_addr(*core),
{
    let zp = zero_page(core);
    let pointer = read16_zp(core, zp);
    wrapping_add16(pointer, core.iy as u16)
}

/// Resolves the effective operand address for the given mode.
pub(crate) fn operand_addr(core: &Core, mode: Mode) -> (addr: u16)
    requires
        core.well_formed(),
    ensures
        addr == spec_addr_by_mode(*core, mode),
{
    match mode {
        Mode::ZeroPage => zero_page(core) as u16,
        Mode::ZeroPageX => zero_page_x(core) as u16,
        Mode::ZeroPageY => zero_page_y(core) as u16,
        Mode::Absolute => absolute(core),
        Mode::AbsoluteX => absolute_x(core),
        Mode::AbsoluteY => absolute_y(core),
        Mode::XIndirect => x_indirect_addr(core),
        Mode::IndirectY => indirect_y_addr(core),
        _ => 0,
    }
}

/// Reads the operand value for the given mode.
pub(crate) fn operand_value(core: &Core, mode: Mode) -> (v: u8)
    requires
        core.well_formed(),
    ensures
        v == spec_value_by_mode(*core, mode),
{
    match mode {
        Mode::Immediate => operand(core),
        _ => {
            let addr = operand_addr(core, mode);
            read_mem(core, addr)
        },
    }
}

/// Resolves relative addressing: the operand byte as a signed offset.
pub fn relative(core: &Core) -> (offset: i8)
    requires
        core.well_formed(),
    ensures
        offset as int == to_signed(spec_operand(*core)),
{
    let b = operand(core);
    if b < 0x80 {
        b as i8
    } else {
        ((b as i16) - 0x100) as i8
    }
}

} // verus!
