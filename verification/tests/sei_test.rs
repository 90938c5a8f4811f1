use emulator::cpu::CPU;

trait Run {
    fn execute_instruction_sequence(&mut self, bytes: &[u8]);
}

impl Run for CPU {
    fn execute_instruction_sequence(&mut self, mut bytes: &[u8]) {
        let instruction_set = self.get_instruction_set();
        while (self.registers.pc as usize) < bytes.len() {
            let opcode = self.get_next_byte(&mut bytes);
            let instruction = instruction_set
                .get(&opcode)
                .unwrap_or_else(|| panic!("Instruction {:#04X?} not found.", opcode));
            self.execute_instruction(instruction, bytes);
        }
    }
}

#[test]
fn sei_test_implied(){
    let mut cpu = CPU::new();
    let bytes = [
        0x78
    ];

    cpu.flags.interrupt = false;
    cpu.execute_instruction_sequence(&mut bytes.as_slice());

    assert_eq!(cpu.flags.interrupt, true);
}
