use emulator::cpu::CPU;
use emulator::flags::Flags;
use emulator::instructions::InstructionParameter;

fn run(cpu: &mut CPU, bytes: &[u8]) {
    let instruction_set = cpu.get_instruction_set();
    while (cpu.registers.pc as usize) < bytes.len() {
        let mut stream = bytes;
        let opcode = cpu.get_next_byte(&mut stream);
        let instruction = instruction_set
            .get(&opcode)
            .unwrap_or_else(|| panic!("Instruction {:#04X?} not found.", opcode));
        assert!(cpu.can_execute(instruction, bytes));
        cpu.execute_instruction(instruction, bytes);
    }
}

#[test]
fn flags_byte_round_trips_on_the_seven_flag_bits() {
    for byte in 0..=255u8 {
        let flags = Flags::from_byte(byte);
        assert_eq!(flags.to_byte(), byte & 0b1111_1011);
        if byte & 0b0000_0100 == 0 {
            assert_eq!(flags.to_byte(), byte);
        }
    }
}

#[test]
fn flags_round_trip_through_the_byte() {
    for bits in 0..128u8 {
        let flags = Flags {
            negative: bits & 1 != 0,
            overflow: bits & 2 != 0,
            brk: bits & 4 != 0,
            decimal: bits & 8 != 0,
            interrupt: bits & 16 != 0,
            zero: bits & 32 != 0,
            carry: bits & 64 != 0,
        };
        assert_eq!(Flags::from_byte(flags.to_byte()), flags);
    }
}

#[test]
fn flags_bit_layout() {
    let none = Flags {
        negative: false,
        overflow: false,
        brk: false,
        decimal: false,
        interrupt: false,
        zero: false,
        carry: false,
    };
    assert_eq!(none.to_byte(), 0x00);
    assert_eq!(Flags { negative: true, ..none }.to_byte(), 0x01);
    assert_eq!(Flags { overflow: true, ..none }.to_byte(), 0x02);
    assert_eq!(Flags { brk: true, ..none }.to_byte(), 0x08);
    assert_eq!(Flags { decimal: true, ..none }.to_byte(), 0x10);
    assert_eq!(Flags { interrupt: true, ..none }.to_byte(), 0x20);
    assert_eq!(Flags { zero: true, ..none }.to_byte(), 0x40);
    assert_eq!(Flags { carry: true, ..none }.to_byte(), 0x80);

    let mut loaded = none;
    loaded.load_from_byte(0xFF);
    assert_eq!(loaded.to_byte(), 0xFB);
}

#[test]
fn pushed_word_pops_back() {
    for value in [0x0000u16, 0x0001, 0x00FF, 0x0100, 0x1234, 0x8000, 0xABCD, 0xFFFF] {
        for pointer in [0xFFu8, 0x80, 0x03, 0x02] {
            let mut cpu = CPU::new();
            cpu.registers.sp = pointer;
            cpu.push_word_to_stack(value);
            assert_eq!(cpu.registers.sp, pointer.wrapping_sub(2));
            assert_eq!(cpu.pop_word_from_stack(), Some(value));
            assert_eq!(cpu.registers.sp, pointer);
        }
    }
}

#[test]
fn pushed_word_is_stored_low_byte_first() {
    let mut cpu = CPU::new();
    cpu.push_word_to_stack(0x1234);

    assert_eq!(cpu.memory[0x01FF], 0x34);
    assert_eq!(cpu.memory[0x01FE], 0x12);
    assert_eq!(cpu.registers.sp, 0xFD);
    assert_eq!(cpu.pop_byte_from_stack(), Some(0x12));
    assert_eq!(cpu.pop_byte_from_stack(), Some(0x34));
}

#[test]
fn word_pop_finds_nothing_at_the_top_of_the_stack() {
    let mut cpu = CPU::new();
    assert_eq!(cpu.registers.sp, 0xFF);
    assert_eq!(cpu.pop_word_from_stack(), None);
    assert_eq!(cpu.registers.sp, 0xFF);

    cpu.registers.sp = 0xFE;
    assert_eq!(cpu.pop_word_from_stack(), None);
    assert_eq!(cpu.registers.sp, 0xFE);

    cpu.registers.sp = 0xFD;
    cpu.memory[0x01FE] = 0x12;
    cpu.memory[0x01FF] = 0x34;
    assert_eq!(cpu.pop_word_from_stack(), Some(0x1234));
}

#[test]
fn word_pushed_from_the_bottom_does_not_pop_back() {
    let mut cpu = CPU::new();
    cpu.registers.sp = 0x01;
    cpu.push_word_to_stack(0x1234);
    assert_eq!(cpu.registers.sp, 0xFF);
    assert_eq!(cpu.pop_word_from_stack(), None);
}

#[test]
fn pushed_byte_pops_back_and_the_stack_pointer_wraps() {
    for pointer in [0xFFu8, 0x80, 0x01, 0x00] {
        let mut cpu = CPU::new();
        cpu.registers.sp = pointer;
        cpu.push_byte_to_stack(0xA5);
        assert_eq!(cpu.memory[0x100 + pointer as usize], 0xA5);
        assert_eq!(cpu.registers.sp, pointer.wrapping_sub(1));
        assert_eq!(cpu.pop_byte_from_stack(), Some(0xA5));
        assert_eq!(cpu.registers.sp, pointer);
    }
}

#[test]
fn stack_address_lies_in_page_one() {
    assert_eq!(CPU::convert_address_to_stack(0x00), 0x0100);
    assert_eq!(CPU::convert_address_to_stack(0xFF), 0x01FF);
}

#[test]
fn registers_wrap_around() {
    let mut cpu = CPU::new();
    cpu.registers.xr = 0xFF;
    cpu.registers.yr = 0xFF;
    run(&mut cpu, &[0xE8, 0xC8]);
    assert_eq!(cpu.registers.xr, 0x00);
    assert_eq!(cpu.registers.yr, 0x00);
    assert_eq!(cpu.flags.zero, true);
    assert_eq!(cpu.flags.negative, false);

    let mut cpu = CPU::new();
    cpu.registers.acc = 0xFF;
    cpu.flags.carry = true;
    run(&mut cpu, &[0x69, 0xFF]);
    assert_eq!(cpu.registers.acc, 0xFF);
    assert_eq!(cpu.flags.carry, true);
    assert_eq!(cpu.flags.negative, true);
}

#[test]
fn program_counter_wraps_around() {
    let mut cpu = CPU::new();
    let bytes = vec![0xEAu8; 0x10000];
    cpu.registers.pc = 0xFFFF;
    let mut stream: &[u8] = &bytes;
    assert_eq!(cpu.get_next_byte(&mut stream), 0xEA);
    assert_eq!(cpu.registers.pc, 0x0000);

    cpu.registers.pc = 0xFFFF;
    let mut bytes = bytes;
    bytes[0xFFFF] = 0x34;
    bytes[0x0000] = 0x12;
    let mut stream: &[u8] = &bytes;
    assert_eq!(cpu.get_next_word(&mut stream), 0x1234);
    assert_eq!(cpu.registers.pc, 0x0001);
}

#[test]
fn and_immediate_clears_accumulator() {
    let mut cpu = CPU::new();
    cpu.registers.acc = 0x20;
    run(&mut cpu, &[0x29, 0x55]);

    assert_eq!(cpu.registers.acc, 0x00);
    assert_eq!(cpu.flags.zero, true);
    assert_eq!(cpu.flags.negative, false);
    assert_eq!(cpu.cycles, 2);
}

#[test]
fn adc_immediate_adds_one() {
    let mut cpu = CPU::new();
    cpu.registers.acc = 0x00;
    cpu.flags.carry = false;
    run(&mut cpu, &[0x69, 0x01]);

    assert_eq!(cpu.registers.acc, 0x01);
    assert_eq!(cpu.flags.carry, false);
    assert_eq!(cpu.flags.zero, false);
    assert_eq!(cpu.flags.negative, false);
}

#[test]
fn adc_carries_and_leaves_overflow_alone() {
    let mut cpu = CPU::new();
    cpu.registers.acc = 0x7F;
    cpu.flags.carry = true;
    cpu.flags.overflow = false;
    run(&mut cpu, &[0x69, 0x00]);
    assert_eq!(cpu.registers.acc, 0x80);
    assert_eq!(cpu.flags.carry, false);
    assert_eq!(cpu.flags.negative, true);
    assert_eq!(cpu.flags.overflow, false);

    let mut cpu = CPU::new();
    cpu.registers.acc = 0xFF;
    cpu.flags.overflow = true;
    run(&mut cpu, &[0x69, 0x01]);
    assert_eq!(cpu.registers.acc, 0x00);
    assert_eq!(cpu.flags.carry, true);
    assert_eq!(cpu.flags.zero, true);
    assert_eq!(cpu.flags.overflow, true);
}

#[test]
fn operation_ignores_operand_of_the_wrong_kind() {
    let mut cpu = CPU::new();
    cpu.registers.acc = 0x11;
    assert_eq!(cpu.op_adc(InstructionParameter::Word(0x0001)), None);
    assert_eq!(cpu.op_adc(InstructionParameter::Nothing), None);
    assert_eq!(cpu.op_jmp(InstructionParameter::Byte(0x12)), None);
    assert_eq!(cpu.op_inx(InstructionParameter::Byte(0x12)), None);
    assert_eq!(cpu.registers.acc, 0x11);
    assert_eq!(cpu.registers.xr, 0x00);
    assert_eq!(cpu.registers.pc, 0x0000);
    assert_eq!(cpu.op_adc(InstructionParameter::Byte(0x01)), Some(0x12));
    assert_eq!(cpu.registers.acc, 0x11);
}
