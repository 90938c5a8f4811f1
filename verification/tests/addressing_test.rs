use emulator::addressing::{page_crossed, Operand};
use emulator::cpu::CPU;
use emulator::instructions::AddressingMode;

fn run(cpu: &mut CPU, bytes: &[u8]) {
    let instruction_set = cpu.get_instruction_set();
    while (cpu.registers.pc as usize) < bytes.len() {
        let mut stream = bytes;
        let opcode = cpu.get_next_byte(&mut stream);
        let instruction = instruction_set
            .get(&opcode)
            .unwrap_or_else(|| panic!("Instruction {:#04X?} not found.", opcode));
        assert!(cpu.can_execute(instruction, bytes));
        cpu.execute_instruction(instruction, bytes);
    }
}

#[test]
fn zero_page_indexing_wraps_within_page_zero() {
    let mut cpu = CPU::new();
    cpu.memory[0x0001] = 0x77;
    cpu.memory[0x0101] = 0x99;
    cpu.registers.xr = 0x02;
    run(&mut cpu, &[0xB5, 0xFF]);

    assert_eq!(cpu.registers.acc, 0x77);
    assert_eq!(cpu.index_zero_page_indexed(0xFF, 0x02), (0x77, 0x0001));
    assert_eq!(cpu.index_zero_page_indexed(0x30, 0x03), (0x00, 0x0033));
}

#[test]
fn indexed_indirect_pointer_wraps_within_page_zero() {
    let mut cpu = CPU::new();
    cpu.memory[0x00FF] = 0x30;
    cpu.memory[0x0000] = 0x40;
    cpu.memory[0x0100] = 0x50;
    cpu.memory[0x4030] = 0x55;
    cpu.registers.xr = 0x0F;
    run(&mut cpu, &[0xA1, 0xF0]);

    assert_eq!(cpu.registers.acc, 0x55);
    assert_eq!(cpu.index_zero_paged_indexed_indirect(0xF0, 0x0F), (0x55, 0x4030));
    assert_eq!(cpu.cycles, 6);
}

#[test]
fn indirect_indexed_reports_page_crossing() {
    let mut cpu = CPU::new();
    cpu.memory[0x0022] = 0xF0;
    cpu.memory[0x0023] = 0x40;
    cpu.memory[0x4100] = 0x66;
    cpu.memory[0x40F1] = 0x67;

    assert_eq!(cpu.index_zero_paged_indirect_indexed(0x22, 0x10), (0x66, true, 0x4100));
    assert_eq!(cpu.index_zero_paged_indirect_indexed(0x22, 0x01), (0x67, false, 0x40F1));

    cpu.registers.yr = 0x10;
    run(&mut cpu, &[0xB1, 0x22]);
    assert_eq!(cpu.registers.acc, 0x66);
    assert_eq!(cpu.cycles, 6);

    let mut cpu = CPU::new();
    cpu.memory[0x0022] = 0xF0;
    cpu.memory[0x0023] = 0x40;
    cpu.memory[0x40F1] = 0x67;
    cpu.registers.yr = 0x01;
    run(&mut cpu, &[0xB1, 0x22]);
    assert_eq!(cpu.registers.acc, 0x67);
    assert_eq!(cpu.cycles, 5);
}

#[test]
fn indirect_indexed_pointer_and_sum_wrap() {
    let mut cpu = CPU::new();
    cpu.memory[0x00FF] = 0xFF;
    cpu.memory[0x0000] = 0xFF;
    cpu.memory[0x0001] = 0x5A;

    // pointer 0xFFFF from 0xFF and 0x00; 0xFFFF + 2 wraps to 0x0001
    assert_eq!(cpu.index_zero_paged_indirect_indexed(0xFF, 0x02), (0x5A, true, 0x0001));
}

#[test]
fn absolute_indexing_wraps_and_reports_page_crossing() {
    let mut cpu = CPU::new();
    cpu.memory[0x2300] = 0x11;
    cpu.memory[0x22FF] = 0x22;
    cpu.memory[0x0003] = 0x33;

    assert_eq!(cpu.index_absolute_indexed(0x22F0, 0x10), (0x11, true, 0x2300));
    assert_eq!(cpu.index_absolute_indexed(0x22F0, 0x0F), (0x22, false, 0x22FF));
    assert_eq!(cpu.index_absolute_indexed(0xFFFF, 0x04), (0x33, true, 0x0003));
    assert_eq!(cpu.index_absolute(0x2300), 0x11);
    assert_eq!(cpu.index_zero_page(0x03), 0x33);
}

#[test]
fn absolute_indirect_reads_pointer_low_byte_first() {
    let mut cpu = CPU::new();
    cpu.memory[0x2233] = 0x30;
    cpu.memory[0x2234] = 0x40;
    cpu.memory[0x4030] = 0x55;
    assert_eq!(cpu.index_absolute_indirect(0x2233), (0x55, 0x4030));

    cpu.memory[0xFFFF] = 0x31;
    cpu.memory[0x0000] = 0x40;
    cpu.memory[0x4031] = 0x56;
    assert_eq!(cpu.index_absolute_indirect(0xFFFF), (0x56, 0x4031));
}

#[test]
fn jmp_indirect_goes_to_the_stored_address() {
    let mut cpu = CPU::new();
    cpu.memory[0x2233] = 0x34;
    cpu.memory[0x2234] = 0x12;
    run(&mut cpu, &[0x6C, 0x33, 0x22]);

    assert_eq!(cpu.registers.pc, 0x1234);
    assert_eq!(cpu.cycles, 5);
}

#[test]
fn page_crossing_compares_high_bytes() {
    assert_eq!(page_crossed(0x1200, 0x12FF), false);
    assert_eq!(page_crossed(0x12FF, 0x1300), true);
    assert_eq!(page_crossed(0x0000, 0xFFFF), true);
    assert_eq!(page_crossed(0x00FF, 0x0000), false);
}

#[test]
fn resolver_consumes_the_bytes_of_each_mode() {
    let bytes = [0x00, 0x34, 0x12, 0x00];
    let modes = [
        (AddressingMode::Implied, 0u16),
        (AddressingMode::Accumulator, 0),
        (AddressingMode::Immediate, 1),
        (AddressingMode::Relative, 1),
        (AddressingMode::ZeroPage, 1),
        (AddressingMode::XIndexedZeroPage, 1),
        (AddressingMode::YIndexedZeroPage, 1),
        (AddressingMode::XIndexedZeroPageIndirect, 1),
        (AddressingMode::ZeroPageIndirectYIndexed, 1),
        (AddressingMode::Absolute, 2),
        (AddressingMode::AbsoluteIndirect, 2),
        (AddressingMode::XIndexedAbsolute, 2),
        (AddressingMode::YIndexedAbsolute, 2),
    ];
    for (mode, length) in modes {
        let mut cpu = CPU::new();
        cpu.registers.pc = 1;
        assert_eq!(mode.operand_bytes(), length);
        cpu.resolve_operand(mode, &bytes);
        assert_eq!(cpu.registers.pc, 1 + length, "{:?}", mode);
        assert_eq!(cpu.cycles, 0);
    }
}

#[test]
fn resolver_yields_value_and_address() {
    let bytes = [0xAD, 0x34, 0x12];
    let mut cpu = CPU::new();
    cpu.memory[0x1234] = 0x99;
    cpu.memory[0x0034] = 0x77;
    cpu.memory[0x1239] = 0x98;
    cpu.registers.acc = 0x42;
    cpu.registers.xr = 0x05;

    cpu.registers.pc = 1;
    assert_eq!(
        cpu.resolve_operand(AddressingMode::Absolute, &bytes),
        Operand { value: Some(0x99), address: Some(0x1234), page_crossed: false }
    );
    cpu.registers.pc = 1;
    assert_eq!(
        cpu.resolve_operand(AddressingMode::XIndexedAbsolute, &bytes),
        Operand { value: Some(0x98), address: Some(0x1239), page_crossed: false }
    );
    cpu.registers.pc = 1;
    assert_eq!(
        cpu.resolve_operand(AddressingMode::ZeroPage, &bytes),
        Operand { value: Some(0x77), address: Some(0x0034), page_crossed: false }
    );
    cpu.registers.pc = 1;
    assert_eq!(
        cpu.resolve_operand(AddressingMode::Immediate, &bytes),
        Operand { value: Some(0x34), address: None, page_crossed: false }
    );
    cpu.registers.pc = 1;
    assert_eq!(
        cpu.resolve_operand(AddressingMode::Accumulator, &bytes),
        Operand { value: Some(0x42), address: None, page_crossed: false }
    );
    assert_eq!(
        cpu.resolve_operand(AddressingMode::Implied, &bytes),
        Operand { value: None, address: None, page_crossed: false }
    );
}
