use nesguin::addressing::{resolve_operand, AddressingMode};
use nesguin::cpu::{LoadError, UnknownOpcode, CPU};
use nesguin::flags::CPUFlag;
use nesguin::opcodes::{lookup, Mnemonic};

fn load_test_program_to_cpu(program: Vec<u8>) -> CPU {
    let mut cpu = CPU::new();
    cpu.reset();
    cpu.load_program(program).expect("program fits in memory");
    cpu
}

const ALL_FLAGS: [(CPUFlag, u8); 8] = [
    (CPUFlag::Carry, 0x01),
    (CPUFlag::Zero, 0x02),
    (CPUFlag::InterruptDisable, 0x04),
    (CPUFlag::Decimal, 0x08),
    (CPUFlag::B0, 0x10),
    (CPUFlag::B1, 0x20),
    (CPUFlag::Overflow, 0x40),
    (CPUFlag::Negative, 0x80),
];

#[test]
fn test_flags() {
    let mut cpu = CPU::new();
    cpu.status = 0;
    cpu.set_cpu_flag(CPUFlag::B0, true);
    let flag = cpu.status;
    let expected: u8 = 0b0001_0000;
    assert_eq!(flag, expected);

    cpu.status = 0;
    cpu.set_cpu_flag(CPUFlag::Carry, true);
    let flag = cpu.status;
    let expected: u8 = 0b0000_0001;
    assert_eq!(flag, expected);

    cpu.status = 0;
    cpu.set_cpu_flag(CPUFlag::Negative, true);
    let flag = cpu.status;
    let expected: u8 = 0b1000_0000;
    assert_eq!(flag, expected);

    cpu.status = 0;
    cpu.set_cpu_flag(CPUFlag::Zero, true);
    let flag = cpu.status;
    let expected: u8 = 0b0000_0010;
    assert_eq!(flag, expected);
}

#[test]
fn set_then_clear_keeps_other_bits() {
    let mut cpu = CPU::new();
    for &(flag, mask) in ALL_FLAGS.iter() {
        for &start in &[0x00u8, 0xFF, 0xA5, 0x5A] {
            cpu.status = start;
            cpu.set_cpu_flag(flag, true);
            assert_eq!(cpu.status, start | mask);
            cpu.set_cpu_flag(flag, false);
            assert_eq!(cpu.status & !mask, start & !mask);
            assert_eq!(cpu.status & mask, 0);
        }
    }
}

#[test]
fn zero_and_negative_from_result() {
    let mut cpu = CPU::new();
    cpu.status = 0;
    cpu.update_zn_flags(0x00);
    assert_eq!(cpu.status, 0b0000_0010);
    cpu.update_zn_flags(0x80);
    assert_eq!(cpu.status, 0b1000_0000);
    cpu.update_zn_flags(0x42);
    assert_eq!(cpu.status, 0);
    cpu.status = 0b0100_0001;
    cpu.update_zn_flags(0x00);
    assert_eq!(cpu.status, 0b0100_0011);
}

#[test]
fn test_addressing_modes() {
    let mut cpu = CPU::new();
    cpu.memory.write_byte(0x0200, 0x10);
    cpu.memory.write_byte(0x0201, 0x30);
    cpu.memory.write_word(0x0010, 0x4000);
    cpu.memory.write_byte(0x00FF, 0x22);
    cpu.memory.write_byte(0x0000, 0x11);
    let m = &cpu.memory;
    assert_eq!(resolve_operand(m, AddressingMode::Immediate, 0x0200, 3, 4), (0x0200, 0x0201));
    assert_eq!(resolve_operand(m, AddressingMode::ZeroPage, 0x0200, 3, 4), (0x0010, 0x0201));
    assert_eq!(resolve_operand(m, AddressingMode::ZeroPageX, 0x0200, 3, 4), (0x0013, 0x0201));
    assert_eq!(resolve_operand(m, AddressingMode::ZeroPageY, 0x0200, 3, 4), (0x0014, 0x0201));
    assert_eq!(resolve_operand(m, AddressingMode::ZeroPageX, 0x0200, 0xF5, 4), (0x0005, 0x0201));
    assert_eq!(resolve_operand(m, AddressingMode::Absolute, 0x0200, 3, 4), (0x3010, 0x0202));
    assert_eq!(resolve_operand(m, AddressingMode::AbsoluteX, 0x0200, 3, 4), (0x3013, 0x0202));
    assert_eq!(resolve_operand(m, AddressingMode::AbsoluteY, 0x0200, 3, 4), (0x3014, 0x0202));
    assert_eq!(resolve_operand(m, AddressingMode::IndirectX, 0x0200, 0, 4), (0x4000, 0x0201));
    assert_eq!(resolve_operand(m, AddressingMode::IndirectY, 0x0200, 3, 4), (0x4004, 0x0201));
    assert_eq!(resolve_operand(m, AddressingMode::IndirectX, 0x0200, 0xEF, 4), (0x1122, 0x0201));
    assert_eq!(resolve_operand(m, AddressingMode::NoneAddressing, 0x0200, 3, 4), (0x0200, 0x0200));
}

#[test]
fn absolute_indexed_wraps_address_space() {
    let mut cpu = CPU::new();
    cpu.memory.write_word(0x0300, 0xFFFE);
    let m = &cpu.memory;
    assert_eq!(resolve_operand(m, AddressingMode::AbsoluteX, 0x0300, 3, 0), (0x0001, 0x0302));
    assert_eq!(resolve_operand(m, AddressingMode::Immediate, 0xFFFF, 0, 0), (0xFFFF, 0x0000));
}

#[test]
fn zero_index_matches_plain_modes() {
    let mut cpu = CPU::new();
    cpu.memory.write_byte(0x0400, 0x80);
    cpu.memory.write_byte(0x0401, 0x12);
    cpu.memory.write_word(0x0080, 0x5678);
    let m = &cpu.memory;
    let zp = resolve_operand(m, AddressingMode::ZeroPage, 0x0400, 9, 9);
    assert_eq!(resolve_operand(m, AddressingMode::ZeroPageX, 0x0400, 0, 9), zp);
    assert_eq!(resolve_operand(m, AddressingMode::ZeroPageY, 0x0400, 9, 0), zp);
    let abs = resolve_operand(m, AddressingMode::Absolute, 0x0400, 9, 9);
    assert_eq!(abs, (0x1280, 0x0402));
    assert_eq!(resolve_operand(m, AddressingMode::AbsoluteX, 0x0400, 0, 9), abs);
    assert_eq!(resolve_operand(m, AddressingMode::AbsoluteY, 0x0400, 9, 0), abs);
    let ind = resolve_operand(m, AddressingMode::IndirectX, 0x0400, 0, 9);
    assert_eq!(ind, (0x5678, 0x0401));
    assert_eq!(resolve_operand(m, AddressingMode::IndirectY, 0x0400, 9, 0), ind);
}

#[test]
fn test_op_lda() {
    let program = vec![0xa9, 0x00];
    let mut cpu = load_test_program_to_cpu(program);
    cpu.run();
    let flag = cpu.status;
    assert!((flag & 0b0000_0010) != 0);
    assert!(cpu.register_a == 0)
}

#[test]
fn test_op_tax() {
    let program = vec![0xA9, 0x02, 0xAA];
    let mut cpu = load_test_program_to_cpu(program);
    cpu.run();
    assert_eq!(cpu.register_a, cpu.register_x);
}

#[test]
fn lda_tax_values() {
    let mut cpu = load_test_program_to_cpu(vec![0xA9, 0x02, 0xAA]);
    cpu.run();
    assert_eq!(cpu.register_a, 0x02);
    assert_eq!(cpu.register_x, 0x02);
}

#[test]
fn test_op_tsx() {
    let program = vec![0xBA];
    let mut cpu = load_test_program_to_cpu(program);
    cpu.stack_pointer = 19;
    cpu.run();
    assert_eq!(cpu.register_x, cpu.stack_pointer);
    assert_eq!(cpu.register_x, 19);
}

#[test]
fn test_op_pha() {
    let program = vec![0xa9, 0x01, 0x48];
    let mut cpu = load_test_program_to_cpu(program);
    cpu.run();
    let stack_address = cpu.resolve_stack_addr(cpu.stack_pointer + 1);
    let value = cpu.memory.read_byte(stack_address);
    assert_eq!(cpu.register_a, 0x01);
    assert_eq!(value, cpu.register_a);
}

#[test]
fn test_op_pla() {
    let program = vec![0xa9, 0x01, 0x48, 0x68];
    let mut cpu = load_test_program_to_cpu(program);
    cpu.run();
    assert_eq!(cpu.register_a, 0x01)
}

#[test]
fn test_op_php() {
    let program = vec![0xa9, 0x21, 0x48, 0x28];
    let mut cpu = load_test_program_to_cpu(program);
    cpu.run();
    assert_eq!(cpu.status, 0x21);
}

#[test]
fn php_pushes_status_verbatim() {
    let mut cpu = load_test_program_to_cpu(vec![0x08]);
    cpu.status = 0b1100_0101;
    cpu.step();
    assert_eq!(cpu.stack_pointer, 0xFE);
    assert_eq!(cpu.memory.read_byte(0x01FF), 0b1100_0101);
    assert_eq!(cpu.status, 0b1100_0101);
}

#[test]
fn sta_and_inx() {
    // LDA #$7F; STA $10; INX
    let mut cpu = load_test_program_to_cpu(vec![0xA9, 0x7F, 0x85, 0x10, 0xE8]);
    cpu.register_x = 0xFF;
    cpu.run();
    assert_eq!(cpu.memory.read_byte(0x0010), 0x7F);
    assert_eq!(cpu.register_x, 0x00);
    assert_eq!(cpu.status & 0b1000_0010, 0b0000_0010);
}

#[test]
fn txs_is_flag_neutral() {
    let mut cpu = load_test_program_to_cpu(vec![0x9A]);
    cpu.register_x = 0x00;
    cpu.status = 0x80;
    cpu.step();
    assert_eq!(cpu.stack_pointer, 0x00);
    assert_eq!(cpu.status, 0x80);
    assert_eq!(cpu.program_counter, 0x8001);
}

#[test]
fn push_then_pop_round_trip() {
    for &sp in &[0x00u8, 0x01, 0x80, 0xFF] {
        for &v in &[0x00u8, 0x01, 0x7F, 0xFF] {
            let mut cpu = CPU::new();
            cpu.stack_pointer = sp;
            cpu.stack_push_byte(v);
            assert_eq!(cpu.stack_pop_byte(), v);
            assert_eq!(cpu.stack_pointer, sp);
        }
    }
}

#[test]
fn push_at_zero_wraps() {
    let mut cpu = CPU::new();
    cpu.stack_pointer = 0x00;
    cpu.stack_push_byte(0x5C);
    assert_eq!(cpu.memory.read_byte(0x0100), 0x5C);
    assert_eq!(cpu.stack_pointer, 0xFF);
    assert_eq!(cpu.stack_pop_byte(), 0x5C);
    assert_eq!(cpu.stack_pointer, 0x00);
}

#[test]
fn stack_addresses() {
    let cpu = CPU::new();
    assert_eq!(cpu.resolve_stack_addr(0x00), 0x0100);
    assert_eq!(cpu.resolve_stack_addr(0xFF), 0x01FF);
}

#[test]
fn new_cpu_is_zeroed() {
    let cpu = CPU::new();
    assert_eq!(cpu.register_a, 0);
    assert_eq!(cpu.register_x, 0);
    assert_eq!(cpu.register_y, 0);
    assert_eq!(cpu.program_counter, 0);
    assert_eq!(cpu.stack_pointer, 0);
    assert_eq!(cpu.status, 0);
    assert_eq!(cpu.memory.read_word(0xFFFC), 0);
}

#[test]
fn load_sets_counter_and_reset_vector() {
    let mut cpu = CPU::new();
    assert_eq!(cpu.load_program(vec![0xA9, 0x05]), Ok(()));
    assert_eq!(cpu.program_counter, 0x8000);
    assert_eq!(cpu.memory.read_byte(0x8000), 0xA9);
    assert_eq!(cpu.memory.read_byte(0x8001), 0x05);
    assert_eq!(cpu.memory.read_word(0xFFFC), 0x8000);
    cpu.register_a = 9;
    cpu.register_x = 9;
    cpu.status = 9;
    cpu.program_counter = 0x1234;
    cpu.reset();
    assert_eq!(cpu.program_counter, 0x8000);
    assert_eq!(cpu.stack_pointer, 0xFF);
    assert_eq!((cpu.register_a, cpu.register_x, cpu.status), (0, 0, 0));
}

#[test]
fn load_program_size_limit() {
    let mut cpu = CPU::new();
    assert_eq!(cpu.load_program(vec![0xEA; 0x8001]), Err(LoadError::ProgramTooLarge));
    assert_eq!(cpu.program_counter, 0);
    assert_eq!(cpu.memory.read_byte(0x8000), 0);
    assert_eq!(cpu.load_program(vec![0xEA; 0x8000]), Ok(()));
    assert_eq!(cpu.memory.read_byte(0xFFFF), 0xEA);
    assert_eq!(cpu.memory.read_word(0xFFFC), 0x8000);
}

#[test]
fn unknown_opcode_is_reported_and_skipped() {
    let mut cpu = load_test_program_to_cpu(vec![0x02, 0xA9, 0x07]);
    let first = cpu.step();
    assert_eq!(first, Some(UnknownOpcode { address: 0x8000, code: 0x02 }));
    assert_eq!(cpu.program_counter, 0x8001);
    let notices = cpu.run();
    assert_eq!(cpu.register_a, 0x07);
    assert_eq!(notices, vec![UnknownOpcode { address: 0xFFFD, code: 0x80 }]);
    assert_eq!(cpu.program_counter, 0xFFFF);
}

#[test]
fn run_stops_when_counter_wraps() {
    let mut cpu = CPU::new();
    // LDA absolute fetched at 0xFFFE: its operand carries the counter past the top.
    cpu.memory.write_byte(0xFFFE, 0xAD);
    cpu.program_counter = 0xFFFE;
    let notices = cpu.run();
    assert!(notices.is_empty());
    assert_eq!(cpu.program_counter, 0x0001);
}

#[test]
fn opcode_table_rows() {
    let lda = lookup(0xA9).expect("LDA immediate");
    assert_eq!(lda.mnemonic, Mnemonic::Lda);
    assert_eq!(lda.mode, AddressingMode::Immediate);
    assert_eq!((lda.code, lda.len, lda.cycles), (0xA9, 2, 2));
    let sta = lookup(0x8D).expect("STA absolute");
    assert_eq!((sta.mnemonic, sta.mode, sta.len), (Mnemonic::Sta, AddressingMode::Absolute, 3));
    assert_eq!(lookup(0x02), None);
}
