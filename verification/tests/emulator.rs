use lolei_6502::system::{init, load_data, parse_hex, set_pc, step, Core, DecodeError, LoadError};
use lolei_6502::trie::gen_trie;

#[test]
fn test_core_initialization() {
    let core = Core::new();
    assert_eq!(core.acc, 0);
    assert_eq!(core.stat, 0);
    assert_eq!(core.pc, 0);
    assert_eq!(core.sp, 0);
    assert_eq!(core.ix, 0);
    assert_eq!(core.iy, 0);
    assert_eq!(core.ir, 0);
    assert!(core.decoded.is_none());
    assert!(core.info.is_none());
    assert_eq!(core.memory, vec![0u8; 65536]);
}

#[test]
fn test_set_pc() {
    let mut core = Core::new();
    set_pc(&mut core, 0x200);
    assert_eq!(core.pc, 0x200);
    assert_eq!(core.memory[0xFFFC], 0x00);
    assert_eq!(core.memory[0xFFFD], 0x02);
}

#[test]
fn test_parse_hex() {
    assert_eq!(parse_hex("0x1A2B"), Ok(0x1A2B));
    assert_eq!(parse_hex("1A2B"), Err("Value must start with 0x".to_string()));
    assert_eq!(
        parse_hex("0xZZZZ"),
        Err("Invalid hex value: invalid digit found in string".to_string())
    );
}

#[test]
fn test_load_data() {
    let mut core = Core::new();
    let data = vec![0x01, 0x02, 0x03, 0x04];
    load_data(&mut core, &data, 0x1000).unwrap();
    assert_eq!(&core.memory[0x1000..0x1004], &data[..]);
}

#[test]
fn test_parse_hex_overflow_and_empty() {
    assert_eq!(
        parse_hex("0x10000"),
        Err("Invalid hex value: number too large to fit in target type".to_string())
    );
    assert_eq!(
        parse_hex("0x"),
        Err("Invalid hex value: cannot parse integer from empty string".to_string())
    );
    assert_eq!(parse_hex("0x0000FFFF"), Ok(0xFFFF));
    assert_eq!(parse_hex("0xab"), Ok(0xAB));
}

#[test]
fn test_init_stack_pointer() {
    let core = init();
    assert_eq!(core.sp, 0xFF);
    assert_eq!(core.acc, 0);
    assert_eq!(core.pc, 0);
}

#[test]
fn test_load_data_out_of_bounds() {
    let mut core = Core::new();
    let data = vec![0xEA, 0xEA, 0xEA, 0xEA];
    let r = load_data(&mut core, &data, 0xFFFE);
    assert_eq!(r, Err(LoadError { origin: 0xFFFE, length: 4 }));
    assert_eq!(core.memory[0xFFFE], 0);
    assert_eq!(core.memory[0xFFFF], 0);
}

#[test]
fn test_step_reports_undefined_opcode() {
    let table = gen_trie();
    let mut core = init();
    core.memory[0x0200] = 0x02;
    set_pc(&mut core, 0x0200);
    let r = step(&mut core, &table);
    assert_eq!(r, Err(DecodeError { opcode: 0x02, address: 0x0200 }));
    assert_eq!(core.pc, 0x0200);
    assert!(core.decoded.is_none());
}

#[test]
fn test_run_halts_on_break_flag() {
    let table = gen_trie();
    let mut core = init();
    // NOP; NOP; BRK, with the interrupt vector pointing at 0x0300.
    load_data(&mut core, &vec![0xEA, 0xEA, 0x00], 0x0200).unwrap();
    core.memory[0xFFFE] = 0x00;
    core.memory[0xFFFF] = 0x03;
    set_pc(&mut core, 0x0200);
    let r = lolei_6502::system::run(&mut core, &table, 100);
    assert_eq!(r, Ok(3));
    assert_eq!(core.pc, 0x0300);
    assert_eq!(core.stat & 0x10, 0x10);
}

#[test]
fn test_run_respects_step_budget() {
    let table = gen_trie();
    let mut core = init();
    load_data(&mut core, &vec![0xEA, 0xEA, 0xEA, 0xEA], 0x0200).unwrap();
    set_pc(&mut core, 0x0200);
    let r = lolei_6502::system::run(&mut core, &table, 2);
    assert_eq!(r, Ok(2));
    assert_eq!(core.pc, 0x0202);
}

#[test]
fn test_example_program() {
    // LDA #$05; STA $10; LDA #$00; ADC $10 at origin 0x0200.
    let table = gen_trie();
    let mut core = init();
    load_data(&mut core, &vec![0xA9, 0x05, 0x85, 0x10, 0xA9, 0x00, 0x65, 0x10], 0x0200).unwrap();
    set_pc(&mut core, 0x0200);
    for _ in 0..4 {
        step(&mut core, &table).unwrap();
    }
    assert_eq!(core.acc, 0x05);
    assert_eq!(core.memory[0x10], 0x05);
    assert_eq!(core.stat & 0x01, 0); // carry clear
    assert_eq!(core.stat & 0x80, 0); // negative clear
    assert_eq!(core.stat & 0x02, 0); // zero clear
    assert_eq!(core.pc, 0x0208);
}

#[test]
fn test_jsr_rts_round_trip() {
    let table = gen_trie();
    let mut core = init();
    // JSR $1234 at 0x0200; RTS at the subroutine.
    load_data(&mut core, &vec![0x20, 0x34, 0x12], 0x0200).unwrap();
    core.memory[0x1234] = 0x60;
    set_pc(&mut core, 0x0200);
    let sp0 = core.sp;
    step(&mut core, &table).unwrap();
    assert_eq!(core.pc, 0x1234);
    assert_eq!(core.sp, sp0.wrapping_sub(2));
    step(&mut core, &table).unwrap();
    assert_eq!(core.pc, 0x0203);
    assert_eq!(core.sp, sp0);
}

#[test]
fn test_stack_wraparound() {
    let table = gen_trie();
    let mut core = init();
    core.sp = 0x01;
    core.acc = 0xAB;
    load_data(&mut core, &vec![0x48, 0x48, 0x48], 0x0200).unwrap();
    set_pc(&mut core, 0x0200);
    step(&mut core, &table).unwrap();
    assert_eq!(core.memory[0x0101], 0xAB);
    assert_eq!(core.sp, 0x00);
    step(&mut core, &table).unwrap();
    assert_eq!(core.memory[0x0100], 0xAB);
    assert_eq!(core.sp, 0xFF);
    step(&mut core, &table).unwrap();
    assert_eq!(core.memory[0x01FF], 0xAB);
    assert_eq!(core.sp, 0xFE);
}

#[test]
fn test_brk_pushes_state_and_vectors() {
    let table = gen_trie();
    let mut core = init();
    core.stat = 0x01;
    core.memory[0x0200] = 0x00;
    core.memory[0xFFFE] = 0xCD;
    core.memory[0xFFFF] = 0xAB;
    set_pc(&mut core, 0x0200);
    step(&mut core, &table).unwrap();
    assert_eq!(core.pc, 0xABCD);
    assert_eq!(core.stat, 0x11);
    assert_eq!(core.sp, 0xFC);
    assert_eq!(core.memory[0x01FF], 0x02); // high byte of 0x0202
    assert_eq!(core.memory[0x01FE], 0x02); // low byte of 0x0202
    assert_eq!(core.memory[0x01FD], 0x11); // pushed status with break set
}
