//! The processor state and the fetch-decode-execute driver.

use crate::arith::{hi_byte, lo_byte, make_word, split_word, word};
use crate::opcodes::{
    adc, and, asl, bcc, bcs, beq, bit, bmi, bne, bpl, brk, bvc, bvs, clc, cld, cli, clv, cmp, cpx,
    cpy, dec, dex, dey, eor, inc, inx, iny, jmp, jsr, lda, ldx, ldy, lsr, nop, ora, pha, php, pla,
    plp, rol, ror, rti, rts, sbc, sec, sed, sei, sta, stx, sty, tax, tay, tsx, txa, txs, tya,
};
use crate::semantics::handler_rel;
use crate::status::break_set;
use crate::table::{
    handler_matches, is_defined_opcode, lemma_dispatch_consistent, opcode_entry, opcode_handler,
    Instruction, Mnemonic,
};
use crate::trie::{is_opcode_table, Trie};
use vstd::prelude::*;
use vstd::string::StrSliceExecFns;

verus! {

/// The complete state of the modeled processor: registers, status
/// flags, the transient decode fields, and the flat 64 KiB memory that
/// holds code, data, zero page, stack and vectors alike.
pub struct Core {
    /// 8-bit accumulator register.
    pub acc: u8,
    /// 8-bit status register; see the flag masks in `status`.
    pub stat: u8,
    /// 16-bit program counter.
    pub pc: u16,
    /// 8-bit stack pointer; the stack lives at `0x0100..=0x01FF`.
    pub sp: u8,
    /// 8-bit index register X.
    pub ix: u8,
    /// 8-bit index register Y.
    pub iy: u8,
    /// 8-bit instruction register, holding the opcode fetched last.
    pub ir: u8,
    /// The handler selected by the last decode, if any.
    pub decoded: Option<Mnemonic>,
    /// The metadata record selected by the last decode, if any.
    pub info: Option<Instruction>,
    /// The full 64 KiB address space.
    pub memory: Vec<u8>,
}

impl Core {
    /// The memory vector always spans the full 16-bit address space.
    pub open spec fn well_formed(&self) -> bool {
        self.memory@.len() == 0x10000
    }

    /// Creates a core with every register zeroed and memory cleared.
    pub fn new() -> (core: Core)
        ensures
            core.well_formed(),
            core.acc == 0,
            core.stat == 0,
            core.pc == 0,
            core.sp == 0,
            core.ix == 0,
            core.iy == 0,
            core.ir == 0,
            core.decoded is None,
            core.info is None,
            forall|i: int| 0 <= i < 0x10000 ==> core.memory@[i] == 0,
    {
        let mut memory: Vec<u8> = Vec::new();
        while memory.len() < 0x10000
            invariant
                memory@.len() <= 0x10000,
                forall|i: int| 0 <= i < memory@.len() ==> memory@[i] == 0,
            decreases 0x10000 - memory@.len(),
        {
            memory.push(0);
        }
        Core {
            acc: 0,
            stat: 0,
            pc: 0,
            sp: 0,
            ix: 0,
            iy: 0,
            ir: 0,
            decoded: None,
            info: None,
            memory,
        }
    }
}

/// The byte of memory at a 16-bit address.
pub open spec fn spec_mem(c: Core, addr: u16) -> u8 {
    c.memory@[addr as int]
}

/// Reads the byte of memory at `addr`.
pub(crate) fn read_mem(core: &Core, addr: u16) -> (v: u8)
    requires
        core.well_formed(),
    ensures
        v == spec_mem(*core, addr),
{
    core.memory[addr as usize]
}

/// Writes `v` to the byte of memory at `addr`.
pub(crate) fn write_mem(core: &mut Core, addr: u16, v: u8)
    requires
        old(core).well_formed(),
    ensures
        final(core).memory@ == old(core).memory@.update(addr as int, v),
        final(core).acc == old(core).acc,
        final(core).stat == old(core).stat,
        final(core).pc == old(core).pc,
        final(core).sp == old(core).sp,
        final(core).ix == old(core).ix,
        final(core).iy == old(core).iy,
        final(core).ir == old(core).ir,
        final(core).decoded == old(core).decoded,
        final(core).info == old(core).info,
        final(core).well_formed(),
{
    core.memory[addr as usize] = v;
}

/// Creates a core ready for use: zeroed, with the stack pointer at the
/// top of the stack page.
pub fn init() -> (core: Core)
    ensures
        core.well_formed(),
        core.acc == 0,
        core.stat == 0,
        core.pc == 0,
        core.sp == 0xFF,
        core.ix == 0,
        core.iy == 0,
        core.ir == 0,
        core.decoded is None,
        core.info is None,
        forall|i: int| 0 <= i < 0x10000 ==> core.memory@[i] == 0,
{
    let mut core: Core = Core::new();
    core.sp = 0xFF;
    core
}

/// Writes `target` into the reset vector at `0xFFFC`/`0xFFFD` and then
/// loads the program counter from that vector, mirroring how the
/// hardware starts after a reset.
pub fn set_pc(core: &mut Core, target: u16)
    requires
        old(core).well_formed(),
    ensures
        final(core).pc == target,
        final(core).memory@ == old(core).memory@.update(0xFFFC, lo_byte(target)).update(
            0xFFFD,
            hi_byte(target),
        ),
        final(core).acc == old(core).acc,
        final(core).stat == old(core).stat,
        final(core).sp == old(core).sp,
        final(core).ix == old(core).ix,
        final(core).iy == old(core).iy,
        final(core).ir == old(core).ir,
        final(core).decoded == old(core).decoded,
        final(core).info == old(core).info,
        final(core).well_formed(),
{
    let (pcl, pch) = split_word(target);
    write_mem(core, 0xFFFC, pcl);
    write_mem(core, 0xFFFD, pch);
    let lo = read_mem(core, 0xFFFC);
    let hi = read_mem(core, 0xFFFD);
    core.pc = make_word(lo, hi);
    proof {
        assert(word(lo_byte(target), hi_byte(target)) == target) by {
            vstd::arithmetic::div_mod::lemma_fundamental_div_mod(target as int, 0x100);
        };
    }
}

/// Loads the next opcode from memory into the instruction register.
pub fn fetch(core: &mut Core)
    requires
        old(core).well_formed(),
    ensures
        final(core).well_formed(),
        final(core).ir == spec_mem(*old(core), old(core).pc),
        final(core).acc == old(core).acc,
        final(core).stat == old(core).stat,
        final(core).pc == old(core).pc,
        final(core).sp == old(core).sp,
        final(core).ix == old(core).ix,
        final(core).iy == old(core).iy,
        final(core).decoded == old(core).decoded,
        final(core).info == old(core).info,
        final(core).memory == old(core).memory,
{
    core.ir = read_mem(core, core.pc);
}

/// Looks the fetched opcode up in the dispatch trie, storing the
/// handler tag and the metadata in the transient decode fields.
pub fn decode(core: &mut Core, prefix_tree: &Trie)
    requires
        old(core).well_formed(),
    ensures
        final(core).well_formed(),
        final(core).decoded == prefix_tree.spec_function(old(core).ir),
        final(core).info == prefix_tree.spec_instruction(old(core).ir),
        final(core).acc == old(core).acc,
        final(core).stat == old(core).stat,
        final(core).pc == old(core).pc,
        final(core).sp == old(core).sp,
        final(core).ix == old(core).ix,
        final(core).iy == old(core).iy,
        final(core).ir == old(core).ir,
        final(core).memory == old(core).memory,
{
    core.decoded = prefix_tree.get_function(core.ir);
    core.info = prefix_tree.get_instruction(core.ir);
}

/// The error reported when execution reaches an undefined opcode: the
/// offending byte and the address it was fetched from.
#[derive(Clone, Copy, Debug, PartialEq, Eq, Structural)]
pub struct DecodeError {
    /// The opcode byte that has no table entry.
    pub opcode: u8,
    /// The address the byte was fetched from.
    pub address: u16,
}

/// The decoded handler, if any, has a case for the opcode in the
/// instruction register.  Decoding through a table built by `gen_trie`
/// always establishes this.
pub open spec fn decode_consistent(c: Core) -> bool {
    c.decoded matches Some(m) ==> handler_matches(c.ir, m)
}

/// Runs the decoded handler.  An undefined opcode is a fatal decode
/// error: the state is left untouched and the offending opcode and its
/// address are reported.
pub fn execute(core: &mut Core) -> (r: Result<(), DecodeError>)
    requires
        old(core).well_formed(),
        decode_consistent(*old(core)),
    ensures
        final(core).well_formed(),
        match old(core).decoded {
            Some(m) => r == Ok::<(), DecodeError>(()) && handler_rel(m, *old(core), *final(core)),
            None => r == Err::<(), DecodeError>(
                DecodeError { opcode: old(core).ir, address: old(core).pc },
            ) && *final(core) == *old(core),
        },
{
    match core.decoded {
        Some(m) => {
            match m {
                Mnemonic::Adc => adc(core),
                Mnemonic::And => and(core),
                Mnemonic::Asl => asl(core),
                Mnemonic::Bcc => bcc(core),
                Mnemonic::Bcs => bcs(core),
                Mnemonic::Beq => beq(core),
                Mnemonic::Bit => bit(core),
                Mnemonic::Bmi => bmi(core),
                Mnemonic::Bne => bne(core),
                Mnemonic::Bpl => bpl(core),
                Mnemonic::Brk => brk(core),
                Mnemonic::Bvc => bvc(core),
                Mnemonic::Bvs => bvs(core),
                Mnemonic::Clc => clc(core),
                Mnemonic::Cld => cld(core),
                Mnemonic::Cli => cli(core),
                Mnemonic::Clv => clv(core),
                Mnemonic::Cmp => cmp(core),
                Mnemonic::Cpx => cpx(core),
                Mnemonic::Cpy => cpy(core),
                Mnemonic::Dec => dec(core),
                Mnemonic::Dex => dex(core),
                Mnemonic::Dey => dey(core),
                Mnemonic::Eor => eor(core),
                Mnemonic::Inc => inc(core),
                Mnemonic::Inx => inx(core),
                Mnemonic::Iny => iny(core),
                Mnemonic::Jmp => jmp(core),
                Mnemonic::Jsr => jsr(core),
                Mnemonic::Lda => lda(core),
                Mnemonic::Ldx => ldx(core),
                Mnemonic::Ldy => ldy(core),
                Mnemonic::Lsr => lsr(core),
                Mnemonic::Nop => nop(core),
                Mnemonic::Ora => ora(core),
                Mnemonic::Pha => pha(core),
                Mnemonic::Php => php(core),
                Mnemonic::Pla => pla(core),
                Mnemonic::Plp => plp(core),
                Mnemonic::Rol => rol(core),
                Mnemonic::Ror => ror(core),
                Mnemonic::Rti => rti(core),
                Mnemonic::Rts => rts(core),
                Mnemonic::Sbc => sbc(core),
                Mnemonic::Sec => sec(core),
                Mnemonic::Sed => sed(core),
                Mnemonic::Sei => sei(core),
                Mnemonic::Sta => sta(core),
                Mnemonic::Stx => stx(core),
                Mnemonic::Sty => sty(core),
                Mnemonic::Tax => tax(core),
                Mnemonic::Tay => tay(core),
                Mnemonic::Tsx => tsx(core),
                Mnemonic::Txa => txa(core),
                Mnemonic::Txs => txs(core),
                Mnemonic::Tya => tya(core),
            }
            Ok(())
        },
        None => Err(DecodeError { opcode: core.ir, address: core.pc }),
    }
}

/// The state fetch and decode leave behind: the opcode at `pc` in the
/// instruction register, and the canonical table's findings for it in
/// the transient decode fields.
pub open spec fn decoded_state(pre: Core) -> Core {
    let op = spec_mem(pre, pre.pc);
    Core { ir: op, decoded: opcode_handler(op), info: opcode_entry(op), ..pre }
}

/// One complete, successful fetch-decode-execute cycle: the opcode at
/// `pc` is defined, and its handler's relation links the decoded state
/// to `post`.
pub open spec fn cycle_rel(pre: Core, post: Core) -> bool {
    match opcode_handler(spec_mem(pre, pre.pc)) {
        Some(m) => handler_rel(m, decoded_state(pre), post),
        None => false,
    }
}

/// `tr` records a run of `n` complete cycles: the state before each
/// cycle and after the last, with no state strictly between the first
/// and the last carrying the break flag (a run halts at the first).
pub open spec fn is_cycle_trace(tr: Seq<Core>, pre: Core, post: Core, n: int) -> bool {
    &&& tr.len() == n + 1
    &&& tr[0] == pre
    &&& tr[n] == post
    &&& forall|i: int| 0 <= i < n ==> cycle_rel(#[trigger] tr[i], tr[i + 1])
    &&& forall|i: int| 0 < i < n ==> !break_set((#[trigger] tr[i]).stat)
}

/// Exactly `n` fetch-decode-execute cycles lead from `pre` to `post`,
/// none but possibly the last ending with the break flag set.
pub open spec fn runs_n_cycles(pre: Core, post: Core, n: int) -> bool {
    exists|tr: Seq<Core>| is_cycle_trace(tr, pre, post, n)
}

/// After `k` complete cycles from `pre`, none of which set the break
/// flag, the next fetch found an undefined opcode and left `post` as
/// the failed decode does: registers and memory untouched, the
/// offending byte in the instruction register, nothing decoded.
pub open spec fn stops_on_undefined(pre: Core, post: Core, k: int) -> bool {
    exists|mid: Core|
        {
            &&& runs_n_cycles(pre, mid, k)
            &&& k > 0 ==> !break_set(mid.stat)
            &&& opcode_handler(spec_mem(mid, mid.pc)) is None
            &&& post == decoded_state(mid)
        }
}

/// Performs one full instruction cycle: fetch the opcode at `pc`,
/// decode it through the dispatch trie, and run the handler.  On an
/// undefined opcode the registers and memory are left as the fetch and
/// decode put them, and the error names the byte and its address.
pub fn step(core: &mut Core, prefix_tree: &Trie) -> (r: Result<(), DecodeError>)
    requires
        old(core).well_formed(),
        is_opcode_table(*prefix_tree),
    ensures
        final(core).well_formed(),
        match opcode_handler(spec_mem(*old(core), old(core).pc)) {
            Some(m) => r == Ok::<(), DecodeError>(()) && cycle_rel(*old(core), *final(core)),
            None => r == Err::<(), DecodeError>(
                DecodeError {
                    opcode: spec_mem(*old(core), old(core).pc),
                    address: old(core).pc,
                },
            ) && *final(core) == decoded_state(*old(core)),
        },
{
    fetch(core);
    decode(core, prefix_tree);
    proof {
        lemma_dispatch_consistent(core.ir);
    }
    execute(core)
}

/// Runs fetch-decode-execute cycles until the break flag is set, the
/// step budget runs out, or an undefined opcode stops the machine.
///
/// `Ok(n)` reports that exactly `n` complete cycles ran, linking the
/// initial state to the final one; a run shorter than the budget ended
/// because its last instruction set the break flag.  `Err` reports the
/// undefined opcode that stopped the machine after some shorter run of
/// cycles, with the state left exactly as the failed decode left it.
pub fn run(core: &mut Core, prefix_tree: &Trie, max_steps: u64) -> (r: Result<u64, DecodeError>)
    requires
        old(core).well_formed(),
        is_opcode_table(*prefix_tree),
    ensures
        final(core).well_formed(),
        match r {
            Ok(n) => n <= max_steps && (n == max_steps || break_set(final(core).stat)) && (
            max_steps > 0 ==> n > 0) && runs_n_cycles(*old(core), *final(core), n as int),
            Err(e) => final(core).decoded is None && !is_defined_opcode(final(core).ir) && e
                == (DecodeError { opcode: final(core).ir, address: final(core).pc }) && (
            exists|k: int| 0 <= k < max_steps && stops_on_undefined(*old(core), *final(core), k)),
        },
{
    let ghost mut tr: Seq<Core> = seq![*old(core)];
    let mut i: u64 = 0;
    while i < max_steps
        invariant
            core.well_formed(),
            is_opcode_table(*prefix_tree),
            i <= max_steps,
            tr.len() == i + 1,
            tr[0] == *old(core),
            tr[i as int] == *core,
            forall|j: int| 0 <= j < i ==> cycle_rel(#[trigger] tr[j], tr[j + 1]),
            forall|j: int| 0 < j <= i ==> !break_set((#[trigger] tr[j]).stat),
        decreases max_steps - i,
    {
        let ghost pre_step: Core = *core;
        match step(core, prefix_tree) {
            Ok(()) => {},
            Err(e) => {
                proof {
                    assert(is_cycle_trace(tr, *old(core), pre_step, i as int));
                    assert(stops_on_undefined(*old(core), *core, i as int));
                }
                return Err(e);
            },
        }
        proof {
            tr = tr.push(*core);
        }
        i = i + 1;
        if (core.stat & 0x10) == 0x10 {
            proof {
                assert(is_cycle_trace(tr, *old(core), *core, i as int));
            }
            return Ok(i);
        }
    }
    proof {
        assert(is_cycle_trace(tr, *old(core), *core, i as int));
    }
    Ok(i)
}

/// The error reported when a program would not fit in memory.
#[derive(Clone, Copy, Debug, PartialEq, Eq, Structural)]
pub struct LoadError {
    /// The address the load was to start at.
    pub origin: u16,
    /// The number of bytes that were to be loaded.
    pub length: usize,
}

/// Copies a program image into memory starting at `origin`.
///
/// Fails, changing nothing, exactly when the image would run past the
/// end of the address space.
pub fn load_data(core: &mut Core, data: &Vec<u8>, origin: u16) -> (r: Result<(), LoadError>)
    requires
        old(core).well_formed(),
    ensures
        final(core).acc == old(core).acc,
        final(core).stat == old(core).stat,
        final(core).pc == old(core).pc,
        final(core).sp == old(core).sp,
        final(core).ix == old(core).ix,
        final(core).iy == old(core).iy,
        final(core).ir == old(core).ir,
        final(core).decoded == old(core).decoded,
        final(core).info == old(core).info,
        final(core).well_formed(),
        origin + data@.len() > 0x10000 ==> r == Err::<(), LoadError>(
            LoadError { origin, length: data@.len() as usize },
        ) && final(core).memory == old(core).memory,
        origin + data@.len() <= 0x10000 ==> r == Ok::<(), LoadError>(()) && (forall|i: int|
            0 <= i < 0x10000 ==> final(core).memory@[i] == (if origin <= i < origin + data@.len() {
                data@[i - origin]
            } else {
                old(core).memory@[i]
            })),
{
    if data.len() > 0x10000 - (origin as usize) {
        return Err(LoadError { origin, length: data.len() });
    }
    let mut k: usize = 0;
    while k < data.len()
        invariant
            core.well_formed(),
            k <= data@.len(),
            origin + data@.len() <= 0x10000,
            core.acc == old(core).acc,
            core.stat == old(core).stat,
            core.pc == old(core).pc,
            core.sp == old(core).sp,
            core.ix == old(core).ix,
            core.iy == old(core).iy,
            core.ir == old(core).ir,
            core.decoded == old(core).decoded,
            core.info == old(core).info,
            forall|i: int|
                0 <= i < 0x10000 ==> core.memory@[i] == (if origin <= i < origin + k {
                    data@[i - origin]
                } else {
                    old(core).memory@[i]
                }),
        decreases data@.len() - k,
    {
        core.memory[(origin as usize) + k] = data[k];
        k = k + 1;
    }
    Ok(())
}


/// A hexadecimal digit in either case.
pub open spec fn is_hex_digit(c: char) -> bool {
    (0x30 <= c as u32 && c as u32 <= 0x39) || (0x61 <= c as u32 && c as u32 <= 0x66) || (0x41
        <= c as u32 && c as u32 <= 0x46)
}

/// The numeric value of a hexadecimal digit.
pub open spec fn hex_digit_value(c: char) -> int {
    if 0x30 <= c as u32 && c as u32 <= 0x39 {
        c as u32 - 0x30
    } else if 0x61 <= c as u32 && c as u32 <= 0x66 {
        c as u32 - 0x61 + 10
    } else {
        c as u32 - 0x41 + 10
    }
}

/// The outcome of scanning a run of hexadecimal digits.
pub enum HexScan {
    Value(u16),
    BadDigit,
    TooLarge,
}

/// Scans the digits of `s` from position `i` onwards, left to right,
/// with `acc` already read: the first flaw found wins, a non-digit
/// before a value too large for 16 bits, as the usual integer parsers
/// have it.
pub open spec fn hex_scan(s: Seq<char>, i: int, acc: int) -> HexScan
    decreases s.len() - i,
{
    if i < 0 || i >= s.len() {
        HexScan::Value(acc as u16)
    } else if !is_hex_digit(s[i]) {
        HexScan::BadDigit
    } else if acc * 16 + hex_digit_value(s[i]) > 0xFFFF {
        HexScan::TooLarge
    } else {
        hex_scan(s, i + 1, acc * 16 + hex_digit_value(s[i]))
    }
}

/// Parses a 16-bit address written as `0x` followed by hexadecimal
/// digits.  Each malformed input is rejected with the message naming
/// what went wrong: a missing `0x` prefix, no digits at all, a
/// non-digit, or a value past `0xFFFF`.
pub fn parse_hex(start: &str) -> (r: Result<u16, String>)
    ensures
        ({
            let s = start@;
            if s.len() < 2 || s[0] != '0' || s[1] != 'x' {
                r matches Err(e) && e@ == "Value must start with 0x"@
            } else if s.len() == 2 {
                r matches Err(e) && e@ == "Invalid hex value: cannot parse integer from empty string"@
            } else {
                match hex_scan(s.skip(2), 0, 0) {
                    HexScan::Value(v) => r == Ok::<u16, String>(v),
                    HexScan::BadDigit => r matches Err(e) && e@
                        == "Invalid hex value: invalid digit found in string"@,
                    HexScan::TooLarge => r matches Err(e) && e@
                        == "Invalid hex value: number too large to fit in target type"@,
                }
            }
        }),
{
    let n = start.unicode_len();
    if n < 2 {
        return Err("Value must start with 0x".to_owned());
    }
    if start.get_char(0) != '0' || start.get_char(1) != 'x' {
        return Err("Value must start with 0x".to_owned());
    }
    if n == 2 {
        return Err("Invalid hex value: cannot parse integer from empty string".to_owned());
    }
    let mut i: usize = 2;
    let mut acc: u32 = 0;
    while i < n
        invariant
            2 <= i <= n,
            n == start@.len(),
            start@[0] == '0',
            start@[1] == 'x',
            acc <= 0xFFFF,
            hex_scan(start@.skip(2), 0, 0) == hex_scan(start@.skip(2), i - 2, acc as int),
        decreases n - i,
    {
        let c = start.get_char(i);
        proof {
            assert(start@.skip(2)[i - 2] == start@[i as int]);
        }
        let u = c as u32;
        let ghost acc0: int = acc as int;
        let d: u32;
        if u >= 0x30 && u <= 0x39 {
            d = u - 0x30;
        } else if u >= 0x61 && u <= 0x66 {
            d = u - 0x61 + 10;
        } else if u >= 0x41 && u <= 0x46 {
            d = u - 0x41 + 10;
        } else {
            proof {
                assert(hex_scan(start@.skip(2), i - 2, acc0) == HexScan::BadDigit);
            }
            return Err("Invalid hex value: invalid digit found in string".to_owned());
        }
        acc = acc * 16 + d;
        if acc > 0xFFFF {
            proof {
                assert(hex_scan(start@.skip(2), i - 2, acc0) == HexScan::TooLarge);
            }
            return Err("Invalid hex value: number too large to fit in target type".to_owned());
        }
        i = i + 1;
    }
    Ok(acc as u16)
}

} // verus!
