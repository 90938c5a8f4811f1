//! The processor: registers, flags, memory and the cycle counter.

use vstd::prelude::*;
use crate::flags::Flags;
use crate::machine::Machine;

verus! {

/// The number of addressable bytes.
pub const MEMORY_SIZE: usize = 0x10000;

/// The processor's registers.
#[derive(Clone, Copy, Debug, PartialEq, Eq)]
pub struct Registers {
    /// The accumulator.
    pub acc: u8,
    /// The program counter: the position of the next byte of the instruction stream.
    pub pc: u16,
    /// The X index register.
    pub xr: u8,
    /// The Y index register.
    pub yr: u8,
    /// The break status byte, set by BRK only.
    pub sr: u8,
    /// The stack pointer, an offset into the stack page.
    pub sp: u8,
}

/// A processor with its memory.
pub struct CPU {
    /// The registers.
    pub registers: Registers,
    /// The status flags.
    pub flags: Flags,
    /// The memory, one byte for each address. The zero page is its first
    /// 256 bytes, the stack page the next 256; the interrupt vector lies at
    /// 0xFFFE and 0xFFFF.
    pub memory: Vec<u8>,
    /// The cycles counted so far.
    pub cycles: u32,
}

impl View for CPU {
    type V = Machine;

    open spec fn view(&self) -> Machine {
        Machine {
            registers: self.registers,
            flags: self.flags,
            memory: self.memory@,
            cycles: self.cycles as nat,
        }
    }
}

impl CPU {
    /// The memory covers the whole 16-bit address space, so that no access
    /// by a 16-bit address can fall outside it.
    pub open spec fn wf(&self) -> bool {
        self@.covers_address_space()
    }

    /// A processor after reset: registers and flags clear, the stack
    /// pointer at the top of the stack page, no cycle counted, and 65536
    /// bytes of zeroed memory.
    pub fn new() -> (cpu: Self)
        ensures
            cpu.wf(),
            cpu@ == Machine::reset(),
    {
        let cpu = Self {
            registers: Registers { acc: 0, pc: 0, xr: 0, yr: 0, sr: 0, sp: 0xFF },
            flags: Flags {
                negative: false,
                overflow: false,
                brk: false,
                decimal: false,
                interrupt: false,
                zero: false,
                carry: false,
            },
            memory: vec![0u8; MEMORY_SIZE],
            cycles: 0,
        };
        assert(cpu.memory@ =~= Seq::new(0x10000, |address: int| 0u8));
        cpu
    }
}

} // verus!
