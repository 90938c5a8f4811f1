//! The mathematical machine: what every executable function of the
//! processor is proved against.
//!
//! A [`Machine`] is a processor state with its memory as a sequence of bytes
//! and an unbounded cycle count. Registers wrap modulo 256, addresses and the
//! program counter modulo 65536.

use vstd::prelude::*;
use crate::bitwise::{high_byte, low_byte, word, wrap_byte, wrap_word};
use crate::cpu::Registers;
use crate::flags::Flags;

verus! {

/// The state of the processor, as mathematics sees it.
pub ghost struct Machine {
    /// The registers.
    pub registers: Registers,
    /// The status flags.
    pub flags: Flags,
    /// The memory, one byte for each address.
    pub memory: Seq<u8>,
    /// The cycles counted so far.
    pub cycles: nat,
}

impl Machine {
    /// The memory holds a byte for every 16-bit address.
    pub open spec fn covers_address_space(self) -> bool {
        self.memory.len() >= 0x10000
    }

    /// The state after reset.
    pub open spec fn reset() -> Machine {
        Machine {
            registers: Registers { acc: 0, pc: 0, xr: 0, yr: 0, sr: 0, sp: 0xFF },
            flags: Flags::cleared(),
            memory: Seq::new(0x10000, |address: int| 0u8),
            cycles: 0,
        }
    }

    /// The same state with another accumulator.
    pub open spec fn with_acc(self, value: u8) -> Machine {
        Machine { registers: Registers { acc: value, ..self.registers }, ..self }
    }

    /// The same state with another X register.
    pub open spec fn with_xr(self, value: u8) -> Machine {
        Machine { registers: Registers { xr: value, ..self.registers }, ..self }
    }

    /// The same state with another Y register.
    pub open spec fn with_yr(self, value: u8) -> Machine {
        Machine { registers: Registers { yr: value, ..self.registers }, ..self }
    }

    /// The same state with another stack pointer.
    pub open spec fn with_sp(self, value: u8) -> Machine {
        Machine { registers: Registers { sp: value, ..self.registers }, ..self }
    }

    /// The same state with another break status byte.
    pub open spec fn with_sr(self, value: u8) -> Machine {
        Machine { registers: Registers { sr: value, ..self.registers }, ..self }
    }

    /// The same state with another program counter.
    pub open spec fn with_pc(self, value: u16) -> Machine {
        Machine { registers: Registers { pc: value, ..self.registers }, ..self }
    }

    /// The same state with other flags.
    pub open spec fn with_flags(self, flags: Flags) -> Machine {
        Machine { flags, ..self }
    }

    /// The same state with the zero and negative flags taken from `value`:
    /// zero when it is 0, negative when its bit 7 is set.
    pub open spec fn with_zero_negative(self, value: u8) -> Machine {
        self.with_flags(Flags { zero: value == 0, negative: value >= 128, ..self.flags })
    }

    /// The same state with `count` more cycles counted.
    pub open spec fn charged(self, count: nat) -> Machine {
        Machine { cycles: self.cycles + count, ..self }
    }

    /// The byte stored at `address`.
    pub open spec fn read(self, address: int) -> u8 {
        self.memory[address]
    }

    /// The same state with `value` stored at `address`.
    pub open spec fn write(self, address: int, value: u8) -> Machine {
        Machine { memory: self.memory.update(address, value), ..self }
    }

    /// The word whose low byte is stored at `low_address` and whose high
    /// byte is stored at `high_address`.
    pub open spec fn read_word(self, low_address: int, high_address: int) -> u16 {
        word(self.read(high_address), self.read(low_address))
    }

    /// The address `index + offset`, wrapped within the zero page.
    pub open spec fn zero_page_indexed(index: u8, offset: u8) -> u16 {
        wrap_byte(index + offset) as u16
    }

    /// The address `index + offset`, wrapped within the address space.
    pub open spec fn absolute_indexed(index: u16, offset: u8) -> u16 {
        wrap_word(index + offset)
    }

    /// The address stored at `pointer`, low byte first; the high byte is
    /// taken from the next address of the 16-bit address space.
    pub open spec fn indirect(self, pointer: u16) -> u16 {
        self.read_word(pointer as int, wrap_word(pointer + 1) as int)
    }

    /// The address stored in the zero page at `pointer`, low byte first; the
    /// high byte is taken from the next address of the zero page.
    pub open spec fn zero_page_indirect(self, pointer: u8) -> u16 {
        self.read_word(pointer as int, wrap_byte(pointer + 1) as int)
    }

    /// The address in the stack page that the stack pointer `pointer`
    /// stands for.
    pub open spec fn stack_address(pointer: u8) -> int {
        0x100 + pointer
    }

    /// The state after pushing a byte: it is stored where the stack pointer
    /// points, and the stack pointer moves down by one, wrapping.
    pub open spec fn push_byte(self, value: u8) -> Machine {
        self.write(Self::stack_address(self.registers.sp), value).with_sp(
            wrap_byte(self.registers.sp - 1),
        )
    }

    /// The state after pushing a word: the low byte first, then the high
    /// byte.
    pub open spec fn push_word(self, value: u16) -> Machine {
        self.push_byte(low_byte(value)).push_byte(high_byte(value))
    }

    /// The state after popping a byte, and the byte: the stack pointer moves
    /// up by one, wrapping, and the byte is read where it then points.
    pub open spec fn pop_byte(self) -> (Machine, u8) {
        let pointer = wrap_byte(self.registers.sp + 1);
        (self.with_sp(pointer), self.read(Self::stack_address(pointer)))
    }

    /// Whether the stack pointer leaves room for two bytes above it in the
    /// stack page.
    pub open spec fn holds_word(self) -> bool {
        self.registers.sp < 0xFE
    }

    /// The state after popping a word, and the word: the high byte first,
    /// then the low byte. Where the stack does not hold a word, nothing is
    /// popped and the state stays as it is.
    pub open spec fn pop_word(self) -> (Machine, Option<u16>) {
        if self.holds_word() {
            let (after_high, high) = self.pop_byte();
            let (after_low, low) = after_high.pop_byte();
            (after_low, Some(word(high, low)))
        } else {
            (self, None)
        }
    }

    /// A byte that is pushed and popped at once comes back, and the stack
    /// pointer with it: only the stack cell that held the byte has changed.
    pub proof fn lemma_push_pop_byte(self, value: u8)
        requires
            self.covers_address_space(),
        ensures
            self.push_byte(value).pop_byte() == (
                Machine { memory: self.push_byte(value).memory, ..self },
                value,
            ),
    {
    }

    /// A word that is pushed and popped at once comes back, and the stack
    /// pointer with it, wherever the pop finds a word: that is, unless the
    /// push started with the stack pointer at 0 or 1 and so left it at 0xFE
    /// or 0xFF. There the pop returns nothing.
    pub proof fn lemma_push_pop_word(self, value: u16)
        requires
            self.covers_address_space(),
        ensures
            self.registers.sp >= 2 ==> self.push_word(value).pop_word() == (
                Machine { memory: self.push_word(value).memory, ..self },
                Some(value),
            ),
            self.registers.sp < 2 ==> self.push_word(value).pop_word() == (
                self.push_word(value),
                None::<u16>,
            ),
    {
    }

    /// The state with the interrupt vector set: the low byte at 0xFFFE, the
    /// high byte at 0xFFFF.
    pub open spec fn with_interrupt_vector(self, high: u8, low: u8) -> Machine {
        self.write(0xFFFE, low).write(0xFFFF, high)
    }

    /// The address held by the interrupt vector.
    pub open spec fn interrupt_vector(self) -> u16 {
        self.read_word(0xFFFE, 0xFFFF)
    }
}

} // verus!
