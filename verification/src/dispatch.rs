//! One step of the dispatch loop: take an opcode from the instruction
//! stream, find its descriptor and execute it, or say why that cannot be
//! done.

use vstd::prelude::*;
use crate::bitwise::wrap_word;
use crate::cpu::CPU;
use crate::instruction_set::{descriptor, lemma_descriptors_are_consistent};
use crate::machine::Machine;

verus! {

/// Why an instruction cannot be executed. Either fault ends a run.
#[derive(Clone, Copy, Debug, PartialEq, Eq)]
pub enum Fault {
    /// The opcode, given here, has no descriptor in the operation table.
    UnsupportedOpcode(u8),
    /// The instruction stream holds no byte at the position given here,
    /// where the opcode or one of its operand bytes was to be taken.
    OutOfBounds(u16),
}

/// Every instruction of the table costs between 2 and 7 cycles before
/// surcharges.
pub proof fn lemma_descriptor_cost(opcode: u8)
    ensures
        descriptor(opcode) matches Some(instruction) ==> 2 <= instruction.cycle_increase <= 7,
{
}

impl Machine {
    /// What keeps the instruction at the program counter from being
    /// executed, if anything does: the first position at which the stream
    /// lacks a byte of the instruction, or the opcode where the table does
    /// not hold it.
    pub open spec fn fault(self, bytes: Seq<u8>) -> Option<Fault> {
        let first = wrap_word(self.registers.pc + 1);
        let second = wrap_word(self.registers.pc + 2);
        if self.registers.pc >= bytes.len() {
            Some(Fault::OutOfBounds(self.registers.pc))
        } else {
            match descriptor(bytes[self.registers.pc as int]) {
                None => Some(Fault::UnsupportedOpcode(bytes[self.registers.pc as int])),
                Some(instruction) => if instruction.address_mode.operand_length() >= 1 && first
                    >= bytes.len() {
                    Some(Fault::OutOfBounds(first))
                } else if instruction.address_mode.operand_length() >= 2 && second
                    >= bytes.len() {
                    Some(Fault::OutOfBounds(second))
                } else {
                    None
                },
            }
        }
    }

    /// The state after one step: the instruction at the program counter has
    /// been executed. Where a fault keeps it from being executed, the state
    /// stays as it is.
    pub open spec fn step(self, bytes: Seq<u8>) -> Machine {
        match self.fault(bytes) {
            Some(_) => self,
            None => self.fetch_byte(bytes).0.execute(
                descriptor(bytes[self.registers.pc as int]).unwrap(),
                bytes,
            ),
        }
    }
}

impl CPU {
    /// Executes the instruction at the program counter: takes its opcode
    /// from the stream, looks its descriptor up and executes it. Where the
    /// stream ends before the instruction does, or the opcode is not
    /// supported, nothing is changed and the fault is returned.
    ///
    /// The cycle counter needs room for the dearest instruction with both
    /// surcharges: 9 cycles.
    pub fn step(&mut self, bytes: &[u8]) -> (outcome: Result<(), Fault>)
        requires
            old(self).wf(),
            old(self).cycles + 9 <= u32::MAX,
        ensures
            final(self).wf(),
            final(self)@ == old(self)@.step(bytes@),
            match outcome {
                Ok(_) => old(self)@.fault(bytes@).is_none(),
                Err(fault) => old(self)@.fault(bytes@) == Some(fault),
            },
    {
        let position = self.registers.pc;
        if position as usize >= bytes.len() {
            return Err(Fault::OutOfBounds(position));
        }
        let opcode = bytes[position as usize];
        match CPU::lookup_instruction(opcode) {
            None => Err(Fault::UnsupportedOpcode(opcode)),
            Some(instruction) => {
                let length = instruction.address_mode.operand_bytes();
                let first = position.wrapping_add(1);
                let second = position.wrapping_add(2);
                if length >= 1 && first as usize >= bytes.len() {
                    Err(Fault::OutOfBounds(first))
                } else if length >= 2 && second as usize >= bytes.len() {
                    Err(Fault::OutOfBounds(second))
                } else {
                    let mut stream = bytes;
                    self.get_next_byte(&mut stream);
                    proof {
                        lemma_descriptors_are_consistent(opcode);
                        lemma_descriptor_cost(opcode);
                        self@.lemma_execute_counts(instruction, bytes@);
                    }
                    self.execute_instruction(&instruction, bytes);
                    Ok(())
                }
            },
        }
    }
}

} // verus!
