use lolei_6502::table::{Mnemonic, Mode};
use lolei_6502::trie::{gen_trie, Trie};

#[test]
fn test_table_has_exactly_151_opcodes() {
    let table = gen_trie();
    let mut defined: u32 = 0;
    for op in 0..=255u16 {
        let b = op as u8;
        let ins = table.get_instruction(b);
        let f = table.get_function(b);
        assert_eq!(ins.is_some(), f.is_some());
        assert_eq!(ins.is_some(), table.contains(b));
        if ins.is_some() {
            defined += 1;
        }
    }
    assert_eq!(defined, 151);
}

#[test]
fn test_table_metadata_values() {
    let table = gen_trie();
    let adc_imm = table.get_instruction(0x69).unwrap();
    assert_eq!(adc_imm.mnemonic, Mnemonic::Adc);
    assert_eq!(adc_imm.mode, Mode::Immediate);
    assert_eq!(adc_imm.length, 2);
    assert_eq!(adc_imm.cycles, 2);
    assert_eq!(adc_imm.flags, 0xC3);
    let jmp_ind = table.get_instruction(0x6C).unwrap();
    assert_eq!(jmp_ind.mnemonic, Mnemonic::Jmp);
    assert_eq!(jmp_ind.mode, Mode::Indirect);
    assert_eq!(jmp_ind.length, 3);
    let sta_zp = table.get_instruction(0x85).unwrap();
    assert_eq!(sta_zp.mnemonic, Mnemonic::Sta);
    assert_eq!(sta_zp.mode, Mode::ZeroPage);
    assert_eq!(sta_zp.flags, 0x00);
    assert_eq!(table.get_function(0xF0), Some(Mnemonic::Beq));
    assert_eq!(table.get_function(0xEA), Some(Mnemonic::Nop));
    assert_eq!(table.get_function(0x02), None);
    assert_eq!(table.get_instruction(0xFF), None);
}

#[test]
fn test_insert_and_overwrite() {
    let mut trie = Trie::new();
    assert!(!trie.contains(0x69));
    assert_eq!(trie.get_instruction(0x69), None);
    let table = gen_trie();
    let first = table.get_instruction(0x69).unwrap();
    let second = table.get_instruction(0x65).unwrap();
    trie.insert(&0x69_u8, first, Some(Mnemonic::Adc));
    assert!(trie.contains(0x69));
    assert!(!trie.contains(0x96));
    assert_eq!(trie.get_instruction(0x69), Some(first));
    // A repeated insert silently overwrites.
    trie.insert(&0x69_u8, second, Some(Mnemonic::Adc));
    assert_eq!(trie.get_instruction(0x69), Some(second));
    assert_eq!(trie.get_function(0x69), Some(Mnemonic::Adc));
}
