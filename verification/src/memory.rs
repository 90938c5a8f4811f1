//! Reading memory under the addressing modes.

use vstd::prelude::*;
use crate::addressing::{page_crossed, pages_differ};
use crate::bitwise::merge_bytes_into_word;
use crate::cpu::CPU;
use crate::machine::Machine;

verus! {

impl CPU {
    /// The byte stored in the zero page at `index`.
    pub fn index_zero_page(&self, index: u8) -> (stored: u8)
        requires
            self.wf(),
        ensures
            stored == self@.read(index as int),
    {
        self.memory[index as usize]
    }

    /// The byte stored in the zero page at `index + offset`, and that
    /// address. The sum wraps within the zero page.
    pub fn index_zero_page_indexed(&self, index: u8, offset: u8) -> (found: (u8, u16))
        requires
            self.wf(),
        ensures
            found.1 == Machine::zero_page_indexed(index, offset),
            found.0 == self@.read(found.1 as int),
    {
        let address = index.wrapping_add(offset);
        (self.memory[address as usize], address as u16)
    }

    /// The byte stored at `index`.
    pub fn index_absolute(&self, index: u16) -> (stored: u8)
        requires
            self.wf(),
        ensures
            stored == self@.read(index as int),
    {
        self.memory[index as usize]
    }

    /// The byte stored at the address that is stored at `index`, and that
    /// address. Its low byte is read at `index`, its high byte at the next
    /// address, wrapping at the end of the address space.
    pub fn index_absolute_indirect(&self, index: u16) -> (found: (u8, u16))
        requires
            self.wf(),
        ensures
            found.1 == self@.indirect(index),
            found.0 == self@.read(found.1 as int),
    {
        let low_byte = self.memory[index as usize];
        let high_byte = self.memory[index.wrapping_add(1) as usize];
        let final_address = merge_bytes_into_word(high_byte, low_byte);

        (self.memory[final_address as usize], final_address)
    }

    /// The byte stored at `index + offset`, whether that address lies in
    /// another page than `index`, and that address. The sum wraps within the
    /// address space.
    pub fn index_absolute_indexed(&self, index: u16, offset: u8) -> (found: (u8, bool, u16))
        requires
            self.wf(),
        ensures
            found.2 == Machine::absolute_indexed(index, offset),
            found.1 == pages_differ(index, found.2),
            found.0 == self@.read(found.2 as int),
    {
        let address = index.wrapping_add(offset as u16);
        let fetched = self.memory[address as usize];

        (fetched, page_crossed(index, address), address)
    }

    /// Indexed indirect: the byte stored at the address that the zero page
    /// holds at `index + offset`, and that address. Both the sum and the
    /// step to the pointer's high byte wrap within the zero page.
    pub fn index_zero_paged_indexed_indirect(&self, index: u8, offset: u8) -> (found: (u8, u16))
        requires
            self.wf(),
        ensures
            found.1 == self@.zero_page_indirect(Machine::zero_page_indexed(index, offset) as u8),
            found.0 == self@.read(found.1 as int),
    {
        let zero_page_address = index.wrapping_add(offset);
        let low_byte = self.memory[zero_page_address as usize];
        let high_byte = self.memory[zero_page_address.wrapping_add(1) as usize];
        let final_address = merge_bytes_into_word(high_byte, low_byte);

        (self.memory[final_address as usize], final_address)
    }

    /// Indirect indexed: the byte stored at the address that the zero page
    /// holds at `index`, moved on by `offset`; whether that move left the
    /// page; and the address reached. The step to the pointer's high byte
    /// wraps within the zero page, the move within the address space.
    pub fn index_zero_paged_indirect_indexed(&self, index: u8, offset: u8) -> (found: (
        u8,
        bool,
        u16,
    ))
        requires
            self.wf(),
        ensures
            found.2 == Machine::absolute_indexed(self@.zero_page_indirect(index), offset),
            found.1 == pages_differ(self@.zero_page_indirect(index), found.2),
            found.0 == self@.read(found.2 as int),
    {
        let low_byte = self.memory[index as usize];
        let high_byte = self.memory[index.wrapping_add(1) as usize];
        let effective_address = merge_bytes_into_word(high_byte, low_byte);
        let final_address = effective_address.wrapping_add(offset as u16);

        (
            self.memory[final_address as usize],
            page_crossed(effective_address, final_address),
            final_address,
        )
    }

    /// Stores the address that BRK jumps to: the low byte at 0xFFFE, the
    /// high byte at 0xFFFF.
    pub fn set_interrupt_vector(&mut self, high_byte: u8, low_byte: u8)
        requires
            old(self).wf(),
        ensures
            final(self).wf(),
            final(self)@ == old(self)@.with_interrupt_vector(high_byte, low_byte),
    {
        self.memory[0xFFFE] = low_byte;
        self.memory[0xFFFF] = high_byte;
    }
}

} // verus!
