use sprig_emu::bus::Rom;
use sprig_emu::cpu::CPU;
use sprig_emu::opcodes::{cpu_ops_codes, AddressingMode, OpCode, OpcodeMap};
use sprig_emu::state::Outcome;

fn same(a: &OpCode, b: &OpCode) -> bool {
    a.code == b.code
        && a.mnemonic == b.mnemonic
        && a.len == b.len
        && a.cycles == b.cycles
        && a.mode == b.mode
}

#[test]
fn the_table_lists_every_opcode_once() {
    let table = cpu_ops_codes();
    assert_eq!(table.len(), 210);
    let mut seen = [false; 256];
    for op in &table {
        assert!(!seen[op.code as usize], "opcode {:#x} is listed twice", op.code);
        seen[op.code as usize] = true;
    }
}

#[test]
fn the_map_finds_what_the_table_lists_and_nothing_else() {
    let table = cpu_ops_codes();
    let map = OpcodeMap::new();
    let mut defined = 0;
    for code in 0..=255u8 {
        let listed = table.iter().find(|op| op.code == code);
        let found = map.get(code);
        match (listed, found) {
            (Some(a), Some(b)) => {
                assert!(same(a, b));
                defined += 1;
            },
            (None, None) => {},
            _ => panic!("table and map disagree on opcode {:#x}", code),
        }
    }
    assert_eq!(defined, 210);
}

#[test]
fn descriptors_of_some_opcodes() {
    let map = OpcodeMap::new();
    let expect = |code: u8, mnemonic: &'static str, len: u8, cycles: u8, mode: AddressingMode| {
        let found = map.get(code).unwrap();
        assert!(same(found, &OpCode::new(code, mnemonic, len, cycles, mode)), "opcode {:#x}", code);
    };
    expect(0x00, "BRK", 1, 7, AddressingMode::NoneAddressing);
    expect(0xa9, "LDA", 2, 2, AddressingMode::Immediate);
    expect(0xa5, "LDA", 2, 3, AddressingMode::ZeroPage);
    expect(0xb5, "LDA", 2, 4, AddressingMode::ZeroPage_X);
    expect(0xb6, "LDX", 2, 4, AddressingMode::ZeroPage_Y);
    expect(0xad, "LDA", 3, 4, AddressingMode::Absolute);
    expect(0xbd, "LDA", 3, 4, AddressingMode::Absolute_X);
    expect(0xb9, "LDA", 3, 4, AddressingMode::Absolute_Y);
    expect(0xa1, "LDA", 2, 6, AddressingMode::Indirect_X);
    expect(0xb1, "LDA", 2, 5, AddressingMode::Indirect_Y);
    expect(0x4c, "JMP", 3, 3, AddressingMode::Absolute);
    expect(0x6c, "JMP", 3, 5, AddressingMode::NoneAddressing);
    expect(0x20, "JSR", 3, 6, AddressingMode::Absolute);
    expect(0x60, "RTS", 1, 6, AddressingMode::NoneAddressing);
    expect(0xd0, "BNE", 2, 2, AddressingMode::NoneAddressing);
    expect(0x0a, "ASL", 1, 2, AddressingMode::NoneAddressing);
    expect(0xfe, "INC", 3, 7, AddressingMode::Absolute_X);
    expect(0xeb, "SBC", 2, 2, AddressingMode::Immediate);
    expect(0xc3, "DCP", 2, 8, AddressingMode::Indirect_X);
    expect(0xff, "ISC", 3, 7, AddressingMode::Absolute_X);
    expect(0x13, "SLO", 2, 8, AddressingMode::Indirect_Y);
    expect(0xfc, "TOP", 3, 4, AddressingMode::Absolute_X);
    expect(0x1a, "NOP", 1, 2, AddressingMode::NoneAddressing);
}

#[test]
fn bytes_that_are_no_opcodes() {
    let map = OpcodeMap::new();
    for code in [0x02u8, 0x0b, 0x12, 0x22, 0x2f, 0x4b, 0x6b, 0x9c, 0xab, 0xbb, 0xcb, 0xf2] {
        assert!(map.get(code).is_none(), "{:#x} has a descriptor", code);
    }
}

#[test]
fn every_instruction_is_one_to_three_bytes_long() {
    for op in cpu_ops_codes() {
        assert!((1..=3).contains(&op.len));
        assert_eq!(op.mnemonic.len(), 3);
    }
}

#[test]
fn a_descriptor_is_made_of_its_five_parts() {
    let op = OpCode::new(0x12, "XYZ", 3, 9, AddressingMode::Indirect_Y);
    assert_eq!(op.code, 0x12);
    assert_eq!(op.mnemonic, "XYZ");
    assert_eq!(op.len, 3);
    assert_eq!(op.cycles, 9);
    assert_eq!(op.mode, AddressingMode::Indirect_Y);
}

#[test]
fn every_defined_opcode_ticks_and_every_other_byte_is_refused() {
    let map = OpcodeMap::new();
    for code in 0..=255u8 {
        let mut cpu = CPU::new(Rom::new(vec![code, 0x10, 0x20]));
        cpu.reset();
        assert_eq!(cpu.can_tick(), map.get(code).is_some());
        match map.get(code) {
            None => {
                assert_eq!(cpu.run(1), Outcome::Unrecognized(code));
                assert_eq!(cpu.program_counter, 0x0601);
            },
            Some(_) if code == 0x00 => {
                assert_eq!(cpu.tick(), Outcome::Break);
                assert_eq!(cpu.program_counter, 0x0601);
            },
            Some(op) => {
                assert_eq!(cpu.tick(), Outcome::Continue);
                let moves = ["JMP", "JSR", "RTS", "RTI"].contains(&op.mnemonic)
                    || (op.mnemonic.starts_with('B') && op.mnemonic != "BIT");
                if !moves {
                    assert_eq!(cpu.program_counter, 0x0600 + op.len as u16, "{:#x}", code);
                }
            },
        }
    }
}
