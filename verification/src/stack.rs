//! The stack: a 256-byte window of memory at 0x0100, addressed through the
//! stack pointer.

use vstd::prelude::*;
use crate::bitwise::{merge_bytes_into_word, split_word_into_bytes};
use crate::cpu::CPU;
use crate::machine::Machine;

verus! {

impl CPU {
    /// The index into memory that a stack pointer stands for.
    pub fn convert_address_to_stack(address: u8) -> (index: usize)
        ensures
            index == Machine::stack_address(address),
    {
        0x100 + (address as u16) as usize
    }

    /// Stores `value` where the stack pointer points and moves the stack
    /// pointer down by one. At 0 it wraps to 0xFF.
    pub fn push_byte_to_stack(&mut self, value: u8)
        requires
            old(self).wf(),
        ensures
            final(self).wf(),
            final(self)@ == old(self)@.push_byte(value),
    {
        let address = CPU::convert_address_to_stack(self.registers.sp);
        self.memory[address] = value;
        self.registers.sp = self.registers.sp.wrapping_sub(1);
    }

    /// Pushes the low byte of `value`, then its high byte.
    pub fn push_word_to_stack(&mut self, value: u16)
        requires
            old(self).wf(),
        ensures
            final(self).wf(),
            final(self)@ == old(self)@.push_word(value),
    {
        let (high_byte, low_byte) = split_word_into_bytes(value);
        self.push_byte_to_stack(low_byte);
        self.push_byte_to_stack(high_byte);
    }

    /// Moves the stack pointer up by one and returns the byte it then points
    /// at. At 0xFF it wraps to 0. A byte is always returned.
    pub fn pop_byte_from_stack(&mut self) -> (popped: Option<u8>)
        requires
            old(self).wf(),
        ensures
            final(self).wf(),
            final(self)@ == old(self)@.pop_byte().0,
            popped == Some(old(self)@.pop_byte().1),
    {
        self.registers.sp = self.registers.sp.wrapping_add(1);
        let value = self.memory[CPU::convert_address_to_stack(self.registers.sp)];
        Some(value)
    }

    /// Pops a word: its high byte first, then its low byte, so that a word
    /// just pushed comes back. With the stack pointer at 0xFE or 0xFF the
    /// stack page holds no word above it: nothing is popped, nothing changes,
    /// and `None` is returned.
    pub fn pop_word_from_stack(&mut self) -> (popped: Option<u16>)
        requires
            old(self).wf(),
        ensures
            final(self).wf(),
            final(self)@ == old(self)@.pop_word().0,
            popped == old(self)@.pop_word().1,
            popped.is_some() <==> old(self).registers.sp < 0xFE,
    {
        if self.registers.sp == 0xFF || self.registers.sp == 0xFE {
            None
        } else {
            self.registers.sp = self.registers.sp.wrapping_add(1);
            let high_byte = self.memory[CPU::convert_address_to_stack(self.registers.sp)];

            self.registers.sp = self.registers.sp.wrapping_add(1);
            let low_byte = self.memory[CPU::convert_address_to_stack(self.registers.sp)];

            Some(merge_bytes_into_word(high_byte, low_byte))
        }
    }
}

} // verus!
