use emulator::bitwise::split_word_into_bytes;
use emulator::cpu::CPU;

trait Run {
    fn execute_instruction_sequence(&mut self, bytes: &[u8]);
}

impl Run for CPU {
    fn execute_instruction_sequence(&mut self, mut bytes: &[u8]) {
        let instruction_set = self.get_instruction_set();
        while (self.registers.pc as usize) < bytes.len() {
            let opcode = self.get_next_byte(&mut bytes);
            let instruction = instruction_set
                .get(&opcode)
                .unwrap_or_else(|| panic!("Instruction {:#04X?} not found.", opcode));
            self.execute_instruction(instruction, bytes);
        }
    }
}

#[test]
fn and_test_immediate() {
    let mut cpu = CPU::new();

    let bytes = [0x29, 0x55];

    cpu.registers.acc = 0xFF;
    cpu.execute_instruction_sequence(&mut bytes.as_slice());

    assert_eq!(cpu.registers.acc, 0xFF & 0x55);
}

#[test]
fn and_test_absolute() {
    let mut cpu = CPU::new();
    let (high_byte, low_byte) = split_word_into_bytes(0x2233);
    cpu.memory[0x2233] = 0x55;

    let bytes = [
        0x2D, low_byte, high_byte
    ];

    cpu.registers.acc = 0xFF;
    cpu.execute_instruction_sequence(&mut bytes.as_slice());

    assert_eq!(cpu.registers.acc, 0xFF & 0x55);
}

#[test]
fn and_test_x_indexed_absolute() {
    let mut cpu = CPU::new();
    let (high_byte, low_byte) = split_word_into_bytes(0x2230);
    cpu.memory[0x2233] = 0x55;

    let bytes = [
        0x3D, low_byte, high_byte
    ];

    cpu.registers.acc = 0xFF;
    cpu.registers.xr = 0x03;
    cpu.execute_instruction_sequence(&mut bytes.as_slice());

    assert_eq!(cpu.registers.acc, 0xFF & 0x55);
}

#[test]
fn and_test_y_indexed_absolute() {
    let mut cpu = CPU::new();
    let (high_byte, low_byte) = split_word_into_bytes(0x2230);
    cpu.memory[0x2233] = 0x55;

    let bytes = [
        0x39, low_byte, high_byte
    ];

    cpu.registers.acc = 0xFF;
    cpu.registers.yr = 0x03;
    cpu.execute_instruction_sequence(&mut bytes.as_slice());

    assert_eq!(cpu.registers.acc, 0xFF & 0x55);
}

#[test]
fn and_test_zero_page() {
    let mut cpu = CPU::new();

    let bytes = [0x25, 0x33];

    cpu.registers.acc = 0xFF;
    cpu.memory[0x33] = 0x55;
    cpu.execute_instruction_sequence(&mut bytes.as_slice());

    assert_eq!(cpu.registers.acc, 0xFF & 0x55);
}

#[test]
fn and_test_x_indexed_zero_page() {
    let mut cpu = CPU::new();

    let bytes = [ 0x35, 0x30];

    cpu.registers.acc = 0xFF;
    cpu.registers.xr = 0x03;
    cpu.memory[0x33] = 0x55;
    cpu.execute_instruction_sequence(&mut bytes.as_slice());

    assert_eq!(cpu.registers.acc, 0xFF & 0x55);
}

#[test]
fn and_test_x_indexed_zero_page_indirect() {
    let mut cpu = CPU::new();

    let bytes = [0x21, 0x1D];

    cpu.registers.acc = 0xFF;
    cpu.registers.xr = 0x03;
    cpu.memory[0x20] = 0x30;
    cpu.memory[0x21] = 0x40;
    cpu.memory[0x4030] = 0x55;
    cpu.execute_instruction_sequence(&mut bytes.as_slice());

    assert_eq!(cpu.registers.acc, 0xFF & 0x55);
}

#[test]
fn and_test_zero_page_indirect_y_indexed() {
    let mut cpu = CPU::new();

    let bytes = [0x31, 0x22];

    cpu.registers.acc = 0xFF;
    cpu.registers.yr = 0x02;

    cpu.memory[0x22] = 0x30;
    cpu.memory[0x23] = 0x40;
    cpu.memory[0x4032] = 0x55;
    cpu.execute_instruction_sequence(&mut bytes.as_slice());

    assert_eq!(cpu.registers.acc, 0xFF & 0x55);
}
