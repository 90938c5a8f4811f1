use emulator::bitwise::split_word_into_bytes;
use emulator::cpu::CPU;

trait Run {
    fn execute_instruction_sequence(&mut self, bytes: &[u8]);
}

impl Run for CPU {
    fn execute_instruction_sequence(&mut self, mut bytes: &[u8]) {
        let instruction_set = self.get_instruction_set();
        while (self.registers.pc as usize) < bytes.len() {
            let opcode = self.get_next_byte(&mut bytes);
            let instruction = instruction_set
                .get(&opcode)
                .unwrap_or_else(|| panic!("Instruction {:#04X?} not found.", opcode));
            self.execute_instruction(instruction, bytes);
        }
    }
}

#[test]
fn dec_test_absolute() {
    let mut cpu = CPU::new();
    let (high_byte, low_byte) = split_word_into_bytes(0x2233);
    cpu.memory[0x2233] = 0x20;
    let bytes = [
        0xCE, low_byte, high_byte
    ];

    cpu.execute_instruction_sequence(&mut bytes.as_slice());

    assert_eq!(cpu.memory[0x2233], 0x20 - 1);
    assert_eq!(cpu.flags.zero, false);
    assert_eq!(cpu.flags.negative, false);
}

#[test]
fn dec_test_absolute_negative() {
    let mut cpu = CPU::new();
    let (high_byte, low_byte) = split_word_into_bytes(0x2233);
    cpu.memory[0x2233] = 0x00;
    let bytes = [
        0xCE, low_byte, high_byte
    ];

    cpu.execute_instruction_sequence(&mut bytes.as_slice());

    assert_eq!(cpu.memory[0x2233], 0xFF);
    assert_eq!(cpu.flags.zero, false);
    assert_eq!(cpu.flags.negative, true);
}

#[test]
fn dec_test_absolute_zero() {
    let mut cpu = CPU::new();
    let (high_byte, low_byte) = split_word_into_bytes(0x2233);
    cpu.memory[0x2233] = 0x01;
    let bytes = [
        0xCE, low_byte, high_byte
    ];

    cpu.execute_instruction_sequence(&mut bytes.as_slice());

    assert_eq!(cpu.memory[0x2233], 0x01 - 1);
    assert_eq!(cpu.flags.zero, true);
    assert_eq!(cpu.flags.negative, false);
}

#[test]
fn dec_test_x_indexed_absolute() {
    let mut cpu = CPU::new();
    let (high_byte, low_byte) = split_word_into_bytes(0x2230);
    cpu.memory[0x2233] = 0x20;
    let bytes = [
        0xDE, low_byte, high_byte
    ];

    cpu.registers.xr = 3;
    cpu.execute_instruction_sequence(&mut bytes.as_slice());

    assert_eq!(cpu.memory[0x2233], 0x20 - 1);
}

#[test]
fn dec_test_zero_page() {
    let mut cpu = CPU::new();
    cpu.memory[0x33] = 0x20;
    let bytes = [
        0xC6, 0x33
    ];

    cpu.execute_instruction_sequence(&mut bytes.as_slice());

    assert_eq!(cpu.memory[0x33], 0x20 - 1);
}

#[test]
fn dec_test_x_indexed_zero_page() {
    let mut cpu = CPU::new();
    cpu.memory[0x33] = 0x20;
    let bytes = [
        0xD6, 0x30
    ];

    cpu.registers.xr = 3;
    cpu.execute_instruction_sequence(&mut bytes.as_slice());

    assert_eq!(cpu.memory[0x33], 0x20 - 1);
}
