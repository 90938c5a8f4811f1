use emulator::cpu::CPU;
use emulator::instructions::{AddressingMode, Instruction, Operation, ResultHandler, ValueOrAddress};

fn run(cpu: &mut CPU, bytes: &[u8]) {
    let instruction_set = cpu.get_instruction_set();
    while (cpu.registers.pc as usize) < bytes.len() {
        let mut stream = bytes;
        let opcode = cpu.get_next_byte(&mut stream);
        let instruction = instruction_set
            .get(&opcode)
            .unwrap_or_else(|| panic!("Instruction {:#04X?} not found.", opcode));
        assert!(cpu.can_execute(instruction, bytes));
        cpu.execute_instruction(instruction, bytes);
    }
}

#[test]
fn page_crossing_costs_a_read_one_cycle() {
    let mut cpu = CPU::new();
    cpu.registers.xr = 0x10;
    run(&mut cpu, &[0xBD, 0xF0, 0x22]);
    assert_eq!(cpu.cycles, 5);

    let mut cpu = CPU::new();
    cpu.registers.xr = 0x0F;
    run(&mut cpu, &[0xBD, 0xF0, 0x22]);
    assert_eq!(cpu.cycles, 4);

    let mut cpu = CPU::new();
    cpu.registers.yr = 0x10;
    run(&mut cpu, &[0xB9, 0xF0, 0x22]);
    assert_eq!(cpu.cycles, 5);
}

#[test]
fn page_crossing_costs_a_store_nothing() {
    let mut cpu = CPU::new();
    cpu.registers.xr = 0x10;
    cpu.registers.acc = 0x44;
    run(&mut cpu, &[0x9D, 0xF0, 0x22]);
    assert_eq!(cpu.memory[0x2300], 0x44);
    assert_eq!(cpu.cycles, 5);

    let mut cpu = CPU::new();
    cpu.registers.xr = 0x10;
    cpu.memory[0x2300] = 0x01;
    run(&mut cpu, &[0xFE, 0xF0, 0x22]);
    assert_eq!(cpu.memory[0x2300], 0x02);
    assert_eq!(cpu.cycles, 7);
}

#[test]
fn cycles_add_up_over_a_program() {
    let mut cpu = CPU::new();
    // LDX #5 (2), INX (2), STX $10 (3), NOP (2), JMP $0009 (3), BRK at 9 (7)
    let bytes = [0xA2, 0x05, 0xE8, 0x86, 0x10, 0xEA, 0x4C, 0x09, 0x00, 0x00];
    cpu.set_interrupt_vector(0xFF, 0xFF);
    run(&mut cpu, &bytes);

    assert_eq!(cpu.memory[0x10], 0x06);
    assert_eq!(cpu.registers.pc, 0xFFFF);
    assert_eq!(cpu.cycles, 2 + 2 + 3 + 2 + 3 + 7);
}

#[test]
fn base_cost_of_each_kind_of_operation() {
    let cases: [(&[u8], u32); 14] = [
        (&[0xEA], 2),
        (&[0xA9, 0x01], 2),
        (&[0xA5, 0x01], 3),
        (&[0xB5, 0x01], 4),
        (&[0xAD, 0x01, 0x02], 4),
        (&[0xA1, 0x01], 6),
        (&[0xB1, 0x01], 5),
        (&[0x0A], 2),
        (&[0x06, 0x01], 5),
        (&[0x1E, 0x01, 0x02], 7),
        (&[0x48], 3),
        (&[0x68], 4),
        (&[0x91, 0x01], 6),
        (&[0xB6, 0x01], 4),
    ];
    for (bytes, cycles) in cases {
        let mut cpu = CPU::new();
        run(&mut cpu, bytes);
        assert_eq!(cpu.cycles, cycles, "{:#04X}", bytes[0]);
    }
}

#[test]
fn readiness_is_refused_where_execution_is_not_defined() {
    let cpu = CPU::new();
    let set = cpu.get_instruction_set();
    let lda_absolute = set.get(&0xAD).unwrap();
    let nop = set.get(&0xEA).unwrap();

    let mut cpu = CPU::new();
    cpu.registers.pc = 1;
    assert_eq!(cpu.can_execute(lda_absolute, &[0xAD, 0x00, 0x10]), true);
    assert_eq!(cpu.can_execute(lda_absolute, &[0xAD, 0x00]), false);
    assert_eq!(cpu.can_execute(lda_absolute, &[0xAD]), false);
    assert_eq!(cpu.can_execute(nop, &[0xEA]), true);

    cpu.cycles = u32::MAX - 3;
    assert_eq!(cpu.can_execute(nop, &[0xEA]), false);
    cpu.cycles = u32::MAX - 4;
    assert_eq!(cpu.can_execute(nop, &[0xEA]), true);
    cpu.cycles = 0;

    cpu.memory.truncate(0xFFFF);
    assert_eq!(cpu.can_execute(nop, &[0xEA]), false);
}

#[test]
fn mismatched_descriptor_is_not_consistent() {
    let good = Instruction {
        address_mode: AddressingMode::ZeroPage,
        operation: Operation::Inc,
        result_handler: ResultHandler::IntoMemory,
        value_or_address: ValueOrAddress::Value,
        cycle_increase: 5,
        cycle_increases_on_page_cross: false,
    };
    assert_eq!(good.check_consistent(), true);
    // a load returns no byte to commit
    assert_eq!(Instruction { operation: Operation::Lda, ..good }.check_consistent(), false);
    // handed the address, the operation computes nothing
    assert_eq!(
        Instruction { value_or_address: ValueOrAddress::Address, ..good }.check_consistent(),
        false
    );
    // no address to write to
    assert_eq!(
        Instruction { address_mode: AddressingMode::Accumulator, ..good }.check_consistent(),
        false
    );
    assert_eq!(
        Instruction {
            address_mode: AddressingMode::Accumulator,
            result_handler: ResultHandler::IntoAccumulator,
            ..good
        }
        .check_consistent(),
        true
    );
    assert_eq!(
        Instruction {
            address_mode: AddressingMode::Implied,
            result_handler: ResultHandler::IntoAccumulator,
            ..good
        }
        .check_consistent(),
        false
    );
    assert_eq!(
        Instruction { operation: Operation::Lda, result_handler: ResultHandler::Discard, ..good }
            .check_consistent(),
        true
    );

    let cpu = CPU::new();
    assert_eq!(cpu.can_execute(&Instruction { operation: Operation::Lda, ..good }, &[0xE6, 0x10]), false);
}

#[test]
fn handle_instruction_operates_and_commits() {
    let cpu = CPU::new();
    let set = cpu.get_instruction_set();

    let mut cpu = CPU::new();
    cpu.handle_instruction(set.get(&0xE6).unwrap(), 0x0040, 0x7F);
    assert_eq!(cpu.memory[0x0040], 0x80);
    assert_eq!(cpu.flags.negative, true);
    assert_eq!(cpu.cycles, 0);
    assert_eq!(cpu.registers.pc, 0);

    cpu.handle_instruction(set.get(&0x4C).unwrap(), 0x1234, 0x7F);
    assert_eq!(cpu.registers.pc, 0x1234);

    cpu.registers.acc = 0x0F;
    cpu.handle_instruction(set.get(&0x25).unwrap(), 0x0040, 0x3C);
    assert_eq!(cpu.registers.acc, 0x0C);
}

#[test]
fn result_handlers_dispose_of_the_byte() {
    let mut cpu = CPU::new();
    cpu.result_into_acc(Some(0x12), None);
    assert_eq!(cpu.registers.acc, 0x12);
    cpu.result_into_memory(Some(0x34), Some(0x2000));
    assert_eq!(cpu.memory[0x2000], 0x34);
    cpu.no_handler(Some(0x56), Some(0x2001));
    assert_eq!(cpu.registers.acc, 0x12);
    assert_eq!(cpu.memory[0x2001], 0x00);
    cpu.commit(ResultHandler::IntoMemory, Some(0x78), Some(0x2002));
    assert_eq!(cpu.memory[0x2002], 0x78);
    cpu.commit(ResultHandler::IntoAccumulator, Some(0x9A), Some(0x2003));
    assert_eq!(cpu.registers.acc, 0x9A);
    assert_eq!(cpu.memory[0x2003], 0x00);
    cpu.commit(ResultHandler::Discard, Some(0xBC), Some(0x2003));
    assert_eq!(cpu.registers.acc, 0x9A);
    assert_eq!(cpu.memory[0x2003], 0x00);
}
