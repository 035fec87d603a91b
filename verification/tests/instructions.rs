use lolei_6502::addressing::{absolute_x, indirect, relative, zero_page_x};
use lolei_6502::system::{init, load_data, set_pc, step, Core};
use lolei_6502::trie::{gen_trie, Trie};

/// Runs the given bytes from 0x0200 for `steps` instructions.
fn run_program(bytes: &[u8], steps: usize) -> Core {
    let table: Trie = gen_trie();
    let mut core = init();
    load_data(&mut core, &bytes.to_vec(), 0x0200).unwrap();
    set_pc(&mut core, 0x0200);
    for _ in 0..steps {
        step(&mut core, &table).unwrap();
    }
    core
}

#[test]
fn test_adc_carry_and_zero() {
    // LDA #$FF; ADC #$01 wraps to zero with carry out.
    let core = run_program(&[0xA9, 0xFF, 0x69, 0x01], 2);
    assert_eq!(core.acc, 0x00);
    assert_eq!(core.stat & 0x01, 0x01); // carry set
    assert_eq!(core.stat & 0x02, 0x02); // zero set
    assert_eq!(core.stat & 0x80, 0x00); // negative clear
    assert_eq!(core.stat & 0x40, 0x00); // overflow clear
}

#[test]
fn test_adc_signed_overflow() {
    // LDA #$50; ADC #$50: two positives summing negative set overflow.
    let core = run_program(&[0xA9, 0x50, 0x69, 0x50], 2);
    assert_eq!(core.acc, 0xA0);
    assert_eq!(core.stat & 0x40, 0x40); // overflow set
    assert_eq!(core.stat & 0x80, 0x80); // negative set
    assert_eq!(core.stat & 0x01, 0x00); // carry clear
}

#[test]
fn test_adc_uses_carry_in() {
    // SEC; LDA #$01; ADC #$01 gives 3 with the carry consumed.
    let core = run_program(&[0x38, 0xA9, 0x01, 0x69, 0x01], 3);
    assert_eq!(core.acc, 0x03);
    assert_eq!(core.stat & 0x01, 0x00);
}

#[test]
fn test_sbc_no_borrow() {
    // SEC; LDA #$05; SBC #$03 leaves 2 with carry still set.
    let core = run_program(&[0x38, 0xA9, 0x05, 0xE9, 0x03], 3);
    assert_eq!(core.acc, 0x02);
    assert_eq!(core.stat & 0x01, 0x01);
    assert_eq!(core.stat & 0x02, 0x00);
}

#[test]
fn test_sbc_borrow_wraps() {
    // CLC; LDA #$00; SBC #$00 is 0 - 0 - 1, wrapping to 0xFF.
    let core = run_program(&[0x18, 0xA9, 0x00, 0xE9, 0x00], 3);
    assert_eq!(core.acc, 0xFF);
    assert_eq!(core.stat & 0x01, 0x00); // borrow happened
    assert_eq!(core.stat & 0x80, 0x80);
}

#[test]
fn test_adc_sbc_round_trip_values() {
    // 200 + 100 wraps with carry out; subtracting 100 back with that
    // carry as carry-in restores 200.
    let core = run_program(&[0xA9, 0xC8, 0x69, 0x64, 0xE9, 0x64], 3);
    assert_eq!(core.acc, 0xC8);
}

#[test]
fn test_branch_displacement_taken_and_not() {
    // Zero flag set: BEQ $05 from 0x0200 lands at 0x0207.
    let table = gen_trie();
    let mut core = init();
    load_data(&mut core, &vec![0xF0, 0x05], 0x0200).unwrap();
    set_pc(&mut core, 0x0200);
    core.stat = 0x02;
    step(&mut core, &table).unwrap();
    assert_eq!(core.pc, 0x0207);
    // Zero flag clear: only the instruction's two bytes are consumed.
    let mut core2 = init();
    load_data(&mut core2, &vec![0xF0, 0x05], 0x0200).unwrap();
    set_pc(&mut core2, 0x0200);
    core2.stat = 0x00;
    step(&mut core2, &table).unwrap();
    assert_eq!(core2.pc, 0x0202);
}

#[test]
fn test_branch_negative_offset() {
    // BNE $FB (-5) from 0x0200 with zero clear lands at 0x01FD.
    let table = gen_trie();
    let mut core = init();
    load_data(&mut core, &vec![0xD0, 0xFB], 0x0200).unwrap();
    set_pc(&mut core, 0x0200);
    step(&mut core, &table).unwrap();
    assert_eq!(core.pc, 0x01FD);
}

#[test]
fn test_sec_sec_idempotent_and_clc() {
    let table = gen_trie();
    let mut core = init();
    core.stat = 0xAA;
    load_data(&mut core, &vec![0x38, 0x38, 0x18], 0x0200).unwrap();
    set_pc(&mut core, 0x0200);
    step(&mut core, &table).unwrap();
    let after_one = core.stat;
    assert_eq!(after_one, 0xAB);
    step(&mut core, &table).unwrap();
    assert_eq!(core.stat, after_one);
    step(&mut core, &table).unwrap();
    assert_eq!(core.stat, 0xAA); // exactly bit 0 cleared, others kept
}

#[test]
fn test_flag_instructions() {
    let core = run_program(&[0xF8, 0x78], 2); // SED; SEI
    assert_eq!(core.stat & 0x08, 0x08);
    assert_eq!(core.stat & 0x04, 0x04);
    let core2 = run_program(&[0xF8, 0x78, 0xD8, 0x58], 4); // then CLD; CLI
    assert_eq!(core2.stat & 0x0C, 0x00);
}

#[test]
fn test_zero_page_x_wraparound() {
    let mut core = init();
    core.pc = 0x0200;
    core.memory[0x0201] = 0xFF;
    core.ix = 0x02;
    assert_eq!(zero_page_x(&core), 0x01);
}

#[test]
fn test_zero_page_x_load_wraps() {
    // LDX #$02; LDA $FF,X reads from 0x0001, not 0x0101.
    let table = gen_trie();
    let mut core = init();
    core.memory[0x0001] = 0x77;
    core.memory[0x0101] = 0x11;
    load_data(&mut core, &vec![0xA2, 0x02, 0xB5, 0xFF], 0x0200).unwrap();
    set_pc(&mut core, 0x0200);
    step(&mut core, &table).unwrap();
    step(&mut core, &table).unwrap();
    assert_eq!(core.acc, 0x77);
}

#[test]
fn test_absolute_x_crosses_pages() {
    let mut core = init();
    core.pc = 0x0200;
    core.memory[0x0201] = 0xFF;
    core.memory[0x0202] = 0x02;
    core.ix = 0x02;
    assert_eq!(absolute_x(&core), 0x0301);
}

#[test]
fn test_indirect_jump() {
    // JMP ($0300) with the pointer naming 0xABCD.
    let table = gen_trie();
    let mut core = init();
    core.memory[0x0300] = 0xCD;
    core.memory[0x0301] = 0xAB;
    load_data(&mut core, &vec![0x6C, 0x00, 0x03], 0x0200).unwrap();
    set_pc(&mut core, 0x0200);
    assert_eq!(indirect(&core), 0xABCD);
    step(&mut core, &table).unwrap();
    assert_eq!(core.pc, 0xABCD);
}

#[test]
fn test_relative_is_signed() {
    let mut core = init();
    core.pc = 0x0200;
    core.memory[0x0201] = 0x80;
    assert_eq!(relative(&core), -128);
    core.memory[0x0201] = 0x7F;
    assert_eq!(relative(&core), 127);
}

#[test]
fn test_x_indirect_load() {
    // LDX #$04; LDA ($20,X): pointer at 0x24/0x25 names 0x0400.
    let table = gen_trie();
    let mut core = init();
    core.memory[0x24] = 0x00;
    core.memory[0x25] = 0x04;
    core.memory[0x0400] = 0x5A;
    load_data(&mut core, &vec![0xA2, 0x04, 0xA1, 0x20], 0x0200).unwrap();
    set_pc(&mut core, 0x0200);
    step(&mut core, &table).unwrap();
    step(&mut core, &table).unwrap();
    assert_eq!(core.acc, 0x5A);
}

#[test]
fn test_indirect_y_store() {
    // LDY #$03; LDA #$99; STA ($20),Y: base 0x0400 plus 3.
    let table = gen_trie();
    let mut core = init();
    core.memory[0x20] = 0x00;
    core.memory[0x21] = 0x04;
    load_data(&mut core, &vec![0xA0, 0x03, 0xA9, 0x99, 0x91, 0x20], 0x0200).unwrap();
    set_pc(&mut core, 0x0200);
    for _ in 0..3 {
        step(&mut core, &table).unwrap();
    }
    assert_eq!(core.memory[0x0403], 0x99);
}

#[test]
fn test_shifts_and_rotates() {
    // LDA #$81; ASL A: carry takes bit 7, result 0x02.
    let core = run_program(&[0xA9, 0x81, 0x0A], 2);
    assert_eq!(core.acc, 0x02);
    assert_eq!(core.stat & 0x01, 0x01);
    // SEC; LDA #$02; ROR A: carry enters bit 7, bit 0 leaves clear.
    let core2 = run_program(&[0x38, 0xA9, 0x02, 0x6A], 3);
    assert_eq!(core2.acc, 0x81);
    assert_eq!(core2.stat & 0x01, 0x00);
    // SEC; LDA #$80; ROL A: carry enters bit 0, bit 7 leaves set.
    let core3 = run_program(&[0x38, 0xA9, 0x80, 0x2A], 3);
    assert_eq!(core3.acc, 0x01);
    assert_eq!(core3.stat & 0x01, 0x01);
    // LDA #$01; LSR A: result zero, carry set, negative clear.
    let core4 = run_program(&[0xA9, 0x01, 0x4A], 2);
    assert_eq!(core4.acc, 0x00);
    assert_eq!(core4.stat & 0x03, 0x03);
    assert_eq!(core4.stat & 0x80, 0x00);
}

#[test]
fn test_inc_dec_memory_wraparound() {
    // INC $10 on 0xFF wraps to zero and sets the zero flag.
    let table = gen_trie();
    let mut core = init();
    core.memory[0x10] = 0xFF;
    load_data(&mut core, &vec![0xE6, 0x10, 0xC6, 0x11], 0x0200).unwrap();
    set_pc(&mut core, 0x0200);
    step(&mut core, &table).unwrap();
    assert_eq!(core.memory[0x10], 0x00);
    assert_eq!(core.stat & 0x02, 0x02);
    // DEC $11 on 0x00 wraps to 0xFF and sets negative.
    step(&mut core, &table).unwrap();
    assert_eq!(core.memory[0x11], 0xFF);
    assert_eq!(core.stat & 0x80, 0x80);
}

#[test]
fn test_compare_sets_flags() {
    // LDA #$30; CMP #$30: equal gives carry and zero.
    let core = run_program(&[0xA9, 0x30, 0xC9, 0x30], 2);
    assert_eq!(core.stat & 0x03, 0x03);
    assert_eq!(core.acc, 0x30); // comparison is non-destructive
    // LDX #$10; CPX #$20: less gives no carry, negative result.
    let core2 = run_program(&[0xA2, 0x10, 0xE0, 0x20], 2);
    assert_eq!(core2.stat & 0x01, 0x00);
    assert_eq!(core2.stat & 0x80, 0x80);
    // LDY #$20; CPY #$10: greater gives carry, no zero.
    let core3 = run_program(&[0xA0, 0x20, 0xC0, 0x10], 2);
    assert_eq!(core3.stat & 0x01, 0x01);
    assert_eq!(core3.stat & 0x02, 0x00);
}

#[test]
fn test_logic_operations() {
    let core = run_program(&[0xA9, 0xF0, 0x29, 0x0F], 2); // AND -> 0
    assert_eq!(core.acc, 0x00);
    assert_eq!(core.stat & 0x02, 0x02);
    let core2 = run_program(&[0xA9, 0xF0, 0x09, 0x0F], 2); // ORA -> FF
    assert_eq!(core2.acc, 0xFF);
    assert_eq!(core2.stat & 0x80, 0x80);
    let core3 = run_program(&[0xA9, 0xFF, 0x49, 0x0F], 2); // EOR -> F0
    assert_eq!(core3.acc, 0xF0);
}

#[test]
fn test_bit_copies_operand_bits() {
    // BIT $10 with a disjoint accumulator: zero set, N and V from the
    // operand's top bits.
    let table = gen_trie();
    let mut core = init();
    core.memory[0x10] = 0xC0;
    load_data(&mut core, &vec![0xA9, 0x01, 0x24, 0x10], 0x0200).unwrap();
    set_pc(&mut core, 0x0200);
    step(&mut core, &table).unwrap();
    step(&mut core, &table).unwrap();
    assert_eq!(core.acc, 0x01);
    assert_eq!(core.stat & 0x02, 0x02);
    assert_eq!(core.stat & 0x80, 0x80);
    assert_eq!(core.stat & 0x40, 0x40);
}

#[test]
fn test_transfers_and_steps() {
    // LDA #$80; TAX; INX wraps the copy through the index register.
    let core = run_program(&[0xA9, 0x80, 0xAA, 0xE8], 3);
    assert_eq!(core.ix, 0x81);
    assert_eq!(core.stat & 0x80, 0x80);
    // LDX #$FF; INX wraps to zero.
    let core2 = run_program(&[0xA2, 0xFF, 0xE8], 2);
    assert_eq!(core2.ix, 0x00);
    assert_eq!(core2.stat & 0x02, 0x02);
    // DEX from zero wraps to 0xFF.
    let core3 = run_program(&[0xA2, 0x00, 0xCA], 2);
    assert_eq!(core3.ix, 0xFF);
    // TXS copies without touching flags; TSX reads back.
    let core4 = run_program(&[0xA2, 0x21, 0x9A, 0xBA], 3);
    assert_eq!(core4.sp, 0x21);
    assert_eq!(core4.ix, 0x21);
    // TAY and TYA round a value through Y.
    let core5 = run_program(&[0xA9, 0x42, 0xA8, 0xA9, 0x00, 0x98], 4);
    assert_eq!(core5.acc, 0x42);
    assert_eq!(core5.iy, 0x42);
}

#[test]
fn test_stack_pull_zeroes_slot() {
    // PHA; LDA #$00; PLA: the accumulator returns and the vacated
    // stack byte is wiped.
    let table = gen_trie();
    let mut core = init();
    core.acc = 0x3C;
    load_data(&mut core, &vec![0x48, 0xA9, 0x00, 0x68], 0x0200).unwrap();
    set_pc(&mut core, 0x0200);
    for _ in 0..3 {
        step(&mut core, &table).unwrap();
    }
    assert_eq!(core.acc, 0x3C);
    assert_eq!(core.sp, 0xFF);
    assert_eq!(core.memory[0x01FF], 0x00);
}

#[test]
fn test_php_plp_round_trip() {
    // PHP pushes the status with the break bit forced; PLP restores
    // the pushed byte wholesale.
    let table = gen_trie();
    let mut core = init();
    core.stat = 0xC3;
    load_data(&mut core, &vec![0x08, 0x28], 0x0200).unwrap();
    set_pc(&mut core, 0x0200);
    step(&mut core, &table).unwrap();
    assert_eq!(core.memory[0x01FF], 0xD3);
    step(&mut core, &table).unwrap();
    assert_eq!(core.stat, 0xD3);
    assert_eq!(core.memory[0x01FF], 0x00);
}

#[test]
fn test_stores() {
    // STA, STX and STY place the registers without touching flags.
    let core = run_program(
        &[0xA9, 0x11, 0xA2, 0x22, 0xA0, 0x33, 0x85, 0x40, 0x86, 0x41, 0x84, 0x42],
        6,
    );
    assert_eq!(core.memory[0x40], 0x11);
    assert_eq!(core.memory[0x41], 0x22);
    assert_eq!(core.memory[0x42], 0x33);
}
