use emulator::bitwise::split_word_into_bytes;
use emulator::cpu::CPU;

trait Run {
    fn execute_instruction_sequence(&mut self, bytes: &[u8]);
}

impl Run for CPU {
    fn execute_instruction_sequence(&mut self, mut bytes: &[u8]) {
        let instruction_set = self.get_instruction_set();
        while (self.registers.pc as usize) < bytes.len() {
            let opcode = self.get_next_byte(&mut bytes);
            let instruction = instruction_set
                .get(&opcode)
                .unwrap_or_else(|| panic!("Instruction {:#04X?} not found.", opcode));
            self.execute_instruction(instruction, bytes);
        }
    }
}

#[test]
fn bit_test_absolute() {
    let mut cpu = CPU::new();

    let (high_byte, low_byte) = split_word_into_bytes(0x2233);
    let bytes = [
        0x2C, low_byte, high_byte
    ];

    cpu.memory[0x2233] = 0xC0;
    cpu.registers.acc = 0xFF;
    cpu.execute_instruction_sequence(&mut bytes.as_slice());

    assert_eq!(cpu.flags.zero, cpu.registers.acc & cpu.memory[0x2233] == 0);
    assert_eq!(cpu.flags.overflow, (cpu.memory[0x2233] & 0x40) != 0);
    assert_eq!(cpu.flags.negative, (cpu.memory[0x2233] & 0x80) != 0);
}

#[test]
fn bit_test_zero_page() {
    let mut cpu = CPU::new();

    let bytes = [
        0x24, 0x33
    ];

    cpu.memory[0x33] = 0xC0;
    cpu.registers.acc = 0xFF;
    cpu.execute_instruction_sequence(&mut bytes.as_slice());

    assert_eq!(cpu.flags.zero, cpu.registers.acc & cpu.memory[0x33] == 0);
    assert_eq!(cpu.flags.overflow, (cpu.memory[0x33] & 0x40) != 0);
    assert_eq!(cpu.flags.negative, (cpu.memory[0x33] & 0x80) != 0);
}
