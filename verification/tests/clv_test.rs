use emulator::cpu::CPU;

trait Run {
    fn execute_instruction_sequence(&mut self, bytes: &[u8]);
}

impl Run for CPU {
    fn execute_instruction_sequence(&mut self, mut bytes: &[u8]) {
        let instruction_set = self.get_instruction_set();
        while (self.registers.pc as usize) < bytes.len() {
            let opcode = self.get_next_byte(&mut bytes);
            let instruction = instruction_set
                .get(&opcode)
                .unwrap_or_else(|| panic!("Instruction {:#04X?} not found.", opcode));
            self.execute_instruction(instruction, bytes);
        }
    }
}

#[test]
fn clv_test_implied(){
    let mut cpu = CPU::new();
    let bytes = [
        0xB8
    ];

    cpu.flags.overflow = true;
    cpu.execute_instruction_sequence(&mut bytes.as_slice());

    assert_eq!(cpu.flags.overflow, false);
}
