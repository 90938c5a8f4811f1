//! The addressing resolver: from an addressing mode and the instruction
//! stream to the operand.

use vstd::prelude::*;
use crate::bitwise::{high_byte, lemma_word_bits, lemma_word_join, word, wrap_word};
use crate::cpu::CPU;
use crate::instructions::{AddressingMode, InstructionParameter, ValueOrAddress};
use crate::machine::Machine;

verus! {

/// Whether two addresses lie in different 256-byte pages, that is, whether
/// their high bytes differ.
pub open spec fn pages_differ(base_address: u16, compare_address: u16) -> bool {
    high_byte(base_address) != high_byte(compare_address)
}

/// Whether two addresses lie in different 256-byte pages.
pub fn page_crossed(base_address: u16, compare_address: u16) -> (crossed: bool)
    ensures
        crossed == pages_differ(base_address, compare_address),
{
    proof {
        lemma_word_bits(base_address, compare_address);
    }
    (base_address & 0xFF00) != (compare_address & 0xFF00)
}

/// What an addressing mode resolves to.
#[derive(Clone, Copy, Debug, PartialEq, Eq)]
pub struct Operand {
    /// The byte the mode yields: the byte after the opcode, the accumulator,
    /// or the byte stored at `address`. The implied mode yields none.
    pub value: Option<u8>,
    /// The address the mode resolves, where it resolves one.
    pub address: Option<u16>,
    /// Whether indexing carried the address into another page.
    pub page_crossed: bool,
}

impl Operand {
    /// The operand as an operation takes it: the address where the mode
    /// resolves one and the operation works on addresses, else the byte,
    /// else nothing.
    pub open spec fn parameter(self, kind: ValueOrAddress) -> InstructionParameter {
        match (self.address, self.value) {
            (Some(address), _) if kind == ValueOrAddress::Address => InstructionParameter::Word(
                address,
            ),
            (_, Some(value)) => InstructionParameter::Byte(value),
            _ => InstructionParameter::Nothing,
        }
    }
}

impl Machine {
    /// Whether the instruction stream holds the next `count` bytes, for
    /// `count` up to 2. The program counter wraps after 0xFFFF.
    pub open spec fn can_fetch(self, bytes: Seq<u8>, count: nat) -> bool {
        &&& count >= 1 ==> self.registers.pc < bytes.len()
        &&& count >= 2 ==> wrap_word(self.registers.pc + 1) < bytes.len()
    }

    /// The state after taking the next byte of the instruction stream, and
    /// that byte.
    pub open spec fn fetch_byte(self, bytes: Seq<u8>) -> (Machine, u8) {
        (self.with_pc(wrap_word(self.registers.pc + 1)), bytes[self.registers.pc as int])
    }

    /// The state after taking the next two bytes of the instruction stream,
    /// and the word they make, low byte first.
    pub open spec fn fetch_word(self, bytes: Seq<u8>) -> (Machine, u16) {
        let (after_low, low) = self.fetch_byte(bytes);
        let (after_high, high) = after_low.fetch_byte(bytes);
        (after_high, word(high, low))
    }

    /// The address that a mode resolves from the operand bytes at the
    /// program counter, and whether indexing carried it into another page.
    pub open spec fn effective_address(self, mode: AddressingMode, bytes: Seq<u8>) -> (u16, bool) {
        let byte = self.fetch_byte(bytes).1;
        let base = self.fetch_word(bytes).1;
        match mode {
            AddressingMode::Absolute => (base, false),
            AddressingMode::AbsoluteIndirect => (self.indirect(base), false),
            AddressingMode::XIndexedAbsolute => {
                let address = Machine::absolute_indexed(base, self.registers.xr);
                (address, pages_differ(base, address))
            },
            AddressingMode::YIndexedAbsolute => {
                let address = Machine::absolute_indexed(base, self.registers.yr);
                (address, pages_differ(base, address))
            },
            AddressingMode::ZeroPage => (byte as u16, false),
            AddressingMode::XIndexedZeroPage => (
                Machine::zero_page_indexed(byte, self.registers.xr),
                false,
            ),
            AddressingMode::YIndexedZeroPage => (
                Machine::zero_page_indexed(byte, self.registers.yr),
                false,
            ),
            AddressingMode::XIndexedZeroPageIndirect => (
                self.zero_page_indirect(Machine::zero_page_indexed(byte, self.registers.xr) as u8),
                false,
            ),
            AddressingMode::ZeroPageIndirectYIndexed => {
                let pointer = self.zero_page_indirect(byte);
                let address = Machine::absolute_indexed(pointer, self.registers.yr);
                (address, pages_differ(pointer, address))
            },
            _ => (0, false),
        }
    }

    /// The state after resolving a mode, and the operand. The program
    /// counter has moved past the mode's operand bytes; nothing else has
    /// changed.
    pub open spec fn resolve(self, mode: AddressingMode, bytes: Seq<u8>) -> (Machine, Operand) {
        let after = self.with_pc(wrap_word(self.registers.pc + mode.operand_length()));
        match mode {
            AddressingMode::Implied => (
                after,
                Operand { value: None, address: None, page_crossed: false },
            ),
            AddressingMode::Accumulator => (
                after,
                Operand { value: Some(self.registers.acc), address: None, page_crossed: false },
            ),
            AddressingMode::Immediate | AddressingMode::Relative => (
                after,
                Operand { value: Some(self.fetch_byte(bytes).1), address: None, page_crossed: false },
            ),
            _ => {
                let (address, crossed) = self.effective_address(mode, bytes);
                (
                    after,
                    Operand {
                        value: Some(self.read(address as int)),
                        address: Some(address),
                        page_crossed: crossed,
                    },
                )
            },
        }
    }
}

impl CPU {
    /// Takes the next byte of the instruction stream and moves the program
    /// counter past it. After 0xFFFF the program counter wraps to 0.
    pub fn get_next_byte(&mut self, bytes: &mut &[u8]) -> (byte: u8)
        requires
            old(self)@.can_fetch(old(bytes)@, 1),
        ensures
            *final(bytes) == *old(bytes),
            (final(self)@, byte) == old(self)@.fetch_byte(old(bytes)@),
    {
        let byte = bytes[self.registers.pc as usize];
        self.registers.pc = self.registers.pc.wrapping_add(1);

        byte
    }

    /// Takes the next two bytes of the instruction stream as a word, low
    /// byte first, and moves the program counter past them.
    pub fn get_next_word(&mut self, bytes: &mut &[u8]) -> (word: u16)
        requires
            old(self)@.can_fetch(old(bytes)@, 2),
        ensures
            *final(bytes) == *old(bytes),
            (final(self)@, word) == old(self)@.fetch_word(old(bytes)@),
    {
        let low_byte = self.get_next_byte(bytes) as u16;
        let high_byte = self.get_next_byte(bytes) as u16;
        proof {
            lemma_word_join(high_byte as u8, low_byte as u8);
        }
        (high_byte << 8) | low_byte
    }

    /// Resolves the operand of an instruction in `mode` whose operand bytes
    /// start at the program counter, and moves the program counter past
    /// them.
    pub fn resolve_operand(&mut self, mode: AddressingMode, mut bytes: &[u8]) -> (operand: Operand)
        requires
            old(self).wf(),
            old(self)@.can_fetch(bytes@, mode.operand_length()),
        ensures
            (final(self)@, operand) == old(self)@.resolve(mode, bytes@),
    {
        match mode {
            AddressingMode::Implied => Operand { value: None, address: None, page_crossed: false },
            AddressingMode::Immediate | AddressingMode::Relative => {
                let value = self.get_next_byte(&mut bytes);
                Operand { value: Some(value), address: None, page_crossed: false }
            },
            AddressingMode::Accumulator => Operand {
                value: Some(self.registers.acc),
                address: None,
                page_crossed: false,
            },
            AddressingMode::Absolute => {
                let address = self.get_next_word(&mut bytes);
                let stored = self.index_absolute(address);
                Operand { value: Some(stored), address: Some(address), page_crossed: false }
            },
            AddressingMode::AbsoluteIndirect => {
                let address = self.get_next_word(&mut bytes);
                let (stored, final_address) = self.index_absolute_indirect(address);
                Operand { value: Some(stored), address: Some(final_address), page_crossed: false }
            },
            AddressingMode::XIndexedAbsolute => {
                let address = self.get_next_word(&mut bytes);
                let (stored, page_crossed, final_address) = self.index_absolute_indexed(
                    address,
                    self.registers.xr,
                );
                Operand { value: Some(stored), address: Some(final_address), page_crossed }
            },
            AddressingMode::YIndexedAbsolute => {
                let address = self.get_next_word(&mut bytes);
                let (stored, page_crossed, final_address) = self.index_absolute_indexed(
                    address,
                    self.registers.yr,
                );
                Operand { value: Some(stored), address: Some(final_address), page_crossed }
            },
            AddressingMode::ZeroPage => {
                let address = self.get_next_byte(&mut bytes);
                let stored = self.index_zero_page(address);
                Operand { value: Some(stored), address: Some(address as u16), page_crossed: false }
            },
            AddressingMode::XIndexedZeroPage => {
                let address = self.get_next_byte(&mut bytes);
                let (stored, final_address) = self.index_zero_page_indexed(
                    address,
                    self.registers.xr,
                );
                Operand { value: Some(stored), address: Some(final_address), page_crossed: false }
            },
            AddressingMode::YIndexedZeroPage => {
                let address = self.get_next_byte(&mut bytes);
                let (stored, final_address) = self.index_zero_page_indexed(
                    address,
                    self.registers.yr,
                );
                Operand { value: Some(stored), address: Some(final_address), page_crossed: false }
            },
            AddressingMode::XIndexedZeroPageIndirect => {
                let address = self.get_next_byte(&mut bytes);
                let (stored, final_address) = self.index_zero_paged_indexed_indirect(
                    address,
                    self.registers.xr,
                );
                Operand { value: Some(stored), address: Some(final_address), page_crossed: false }
            },
            AddressingMode::ZeroPageIndirectYIndexed => {
                let address = self.get_next_byte(&mut bytes);
                let (stored, page_crossed, final_address) = self.index_zero_paged_indirect_indexed(
                    address,
                    self.registers.yr,
                );
                Operand { value: Some(stored), address: Some(final_address), page_crossed }
            },
        }
    }
}

} // verus!
