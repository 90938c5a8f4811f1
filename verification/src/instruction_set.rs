//! The operation table: which instruction each opcode stands for, and the
//! result handlers that descriptors name.
//!
//! The table is stated twice. [`encoding`] says which operation and
//! addressing mode an opcode encodes, and a handful of rules derive the
//! rest of the descriptor from them: what the operation costs in that mode,
//! whether a page crossing costs a cycle more, where the result goes, and
//! whether the operation works on an address. [`CPU::lookup_instruction`]
//! writes every descriptor out, and is proved to agree with the rules.

use std::collections::HashMap;
use vstd::prelude::*;
use crate::cpu::CPU;
use crate::instructions::{AddressingMode, Instruction, Operation, ResultHandler, ValueOrAddress};

verus! {

/// The operation and the addressing mode that an opcode encodes. Opcodes
/// that encode none are not supported.
pub open spec fn encoding(opcode: u8) -> Option<(Operation, AddressingMode)> {
    match opcode {
        // ADC
        0x69 => Some((Operation::Adc, AddressingMode::Immediate)),
        0x6D => Some((Operation::Adc, AddressingMode::Absolute)),
        0x7D => Some((Operation::Adc, AddressingMode::XIndexedAbsolute)),
        0x79 => Some((Operation::Adc, AddressingMode::YIndexedAbsolute)),
        0x65 => Some((Operation::Adc, AddressingMode::ZeroPage)),
        0x75 => Some((Operation::Adc, AddressingMode::XIndexedZeroPage)),
        0x61 => Some((Operation::Adc, AddressingMode::XIndexedZeroPageIndirect)),
        0x71 => Some((Operation::Adc, AddressingMode::ZeroPageIndirectYIndexed)),
        // AND
        0x29 => Some((Operation::And, AddressingMode::Immediate)),
        0x2D => Some((Operation::And, AddressingMode::Absolute)),
        0x3D => Some((Operation::And, AddressingMode::XIndexedAbsolute)),
        0x39 => Some((Operation::And, AddressingMode::YIndexedAbsolute)),
        0x25 => Some((Operation::And, AddressingMode::ZeroPage)),
        0x35 => Some((Operation::And, AddressingMode::XIndexedZeroPage)),
        0x21 => Some((Operation::And, AddressingMode::XIndexedZeroPageIndirect)),
        0x31 => Some((Operation::And, AddressingMode::ZeroPageIndirectYIndexed)),
        // ASL
        0x0A => Some((Operation::Asl, AddressingMode::Accumulator)),
        0x0E => Some((Operation::Asl, AddressingMode::Absolute)),
        0x1E => Some((Operation::Asl, AddressingMode::XIndexedAbsolute)),
        0x06 => Some((Operation::Asl, AddressingMode::ZeroPage)),
        0x16 => Some((Operation::Asl, AddressingMode::XIndexedZeroPage)),
        // BCC
        0x90 => Some((Operation::Bcc, AddressingMode::Relative)),
        // BCS
        0xB0 => Some((Operation::Bcs, AddressingMode::Relative)),
        // BEQ
        0xF0 => Some((Operation::Beq, AddressingMode::Relative)),
        // BIT
        0x2C => Some((Operation::Bit, AddressingMode::Absolute)),
        0x24 => Some((Operation::Bit, AddressingMode::ZeroPage)),
        // BMI
        0x30 => Some((Operation::Bmi, AddressingMode::Relative)),
        // BNE
        0xD0 => Some((Operation::Bne, AddressingMode::Relative)),
        // BPL
        0x10 => Some((Operation::Bpl, AddressingMode::Relative)),
        // BRK
        0x00 => Some((Operation::Brk, AddressingMode::Implied)),
        // BVC
        0x50 => Some((Operation::Bvc, AddressingMode::Relative)),
        // BVS
        0x70 => Some((Operation::Bvs, AddressingMode::Relative)),
        // CLC
        0x18 => Some((Operation::Clc, AddressingMode::Implied)),
        // CLD
        0xD8 => Some((Operation::Cld, AddressingMode::Implied)),
        // CLI
        0x58 => Some((Operation::Cli, AddressingMode::Implied)),
        // CLV
        0xB8 => Some((Operation::Clv, AddressingMode::Implied)),
        // CMP
        0xC9 => Some((Operation::Cmp, AddressingMode::Immediate)),
        0xCD => Some((Operation::Cmp, AddressingMode::Absolute)),
        0xDD => Some((Operation::Cmp, AddressingMode::XIndexedAbsolute)),
        0xD9 => Some((Operation::Cmp, AddressingMode::YIndexedAbsolute)),
        0xC5 => Some((Operation::Cmp, AddressingMode::ZeroPage)),
        0xD5 => Some((Operation::Cmp, AddressingMode::XIndexedZeroPage)),
        0xC1 => Some((Operation::Cmp, AddressingMode::XIndexedZeroPageIndirect)),
        0xD1 => Some((Operation::Cmp, AddressingMode::ZeroPageIndirectYIndexed)),
        // CPX
        0xE0 => Some((Operation::Cpx, AddressingMode::Immediate)),
        0xEC => Some((Operation::Cpx, AddressingMode::Absolute)),
        0xE4 => Some((Operation::Cpx, AddressingMode::ZeroPage)),
        // CPY
        0xC0 => Some((Operation::Cpy, AddressingMode::Immediate)),
        0xCC => Some((Operation::Cpy, AddressingMode::Absolute)),
        0xC4 => Some((Operation::Cpy, AddressingMode::ZeroPage)),
        // DEC
        0xCE => Some((Operation::Dec, AddressingMode::Absolute)),
        0xDE => Some((Operation::Dec, AddressingMode::XIndexedAbsolute)),
        0xC6 => Some((Operation::Dec, AddressingMode::ZeroPage)),
        0xD6 => Some((Operation::Dec, AddressingMode::XIndexedZeroPage)),
        // DEX
        0xCA => Some((Operation::Dex, AddressingMode::Implied)),
        // DEY
        0x88 => Some((Operation::Dey, AddressingMode::Implied)),
        // EOR
        0x49 => Some((Operation::Eor, AddressingMode::Immediate)),
        0x4D => Some((Operation::Eor, AddressingMode::Absolute)),
        0x5D => Some((Operation::Eor, AddressingMode::XIndexedAbsolute)),
        0x59 => Some((Operation::Eor, AddressingMode::YIndexedAbsolute)),
        0x45 => Some((Operation::Eor, AddressingMode::ZeroPage)),
        0x55 => Some((Operation::Eor, AddressingMode::XIndexedZeroPage)),
        0x41 => Some((Operation::Eor, AddressingMode::XIndexedZeroPageIndirect)),
        0x51 => Some((Operation::Eor, AddressingMode::ZeroPageIndirectYIndexed)),
        // INC
        0xEE => Some((Operation::Inc, AddressingMode::Absolute)),
        0xFE => Some((Operation::Inc, AddressingMode::XIndexedAbsolute)),
        0xE6 => Some((Operation::Inc, AddressingMode::ZeroPage)),
        0xF6 => Some((Operation::Inc, AddressingMode::XIndexedZeroPage)),
        // INX
        0xE8 => Some((Operation::Inx, AddressingMode::Implied)),
        // INY
        0xC8 => Some((Operation::Iny, AddressingMode::Implied)),
        // JMP
        0x4C => Some((Operation::Jmp, AddressingMode::Absolute)),
        0x6C => Some((Operation::Jmp, AddressingMode::AbsoluteIndirect)),
        // JSR
        0x20 => Some((Operation::Jsr, AddressingMode::Absolute)),
        // LDA
        0xA9 => Some((Operation::Lda, AddressingMode::Immediate)),
        0xAD => Some((Operation::Lda, AddressingMode::Absolute)),
        0xBD => Some((Operation::Lda, AddressingMode::XIndexedAbsolute)),
        0xB9 => Some((Operation::Lda, AddressingMode::YIndexedAbsolute)),
        0xA5 => Some((Operation::Lda, AddressingMode::ZeroPage)),
        0xB5 => Some((Operation::Lda, AddressingMode::XIndexedZeroPage)),
        0xA1 => Some((Operation::Lda, AddressingMode::XIndexedZeroPageIndirect)),
        0xB1 => Some((Operation::Lda, AddressingMode::ZeroPageIndirectYIndexed)),
        // LDX
        0xA2 => Some((Operation::Ldx, AddressingMode::Immediate)),
        0xAE => Some((Operation::Ldx, AddressingMode::Absolute)),
        0xBE => Some((Operation::Ldx, AddressingMode::YIndexedAbsolute)),
        0xA6 => Some((Operation::Ldx, AddressingMode::ZeroPage)),
        0xB6 => Some((Operation::Ldx, AddressingMode::YIndexedZeroPage)),
        // LDY
        0xA0 => Some((Operation::Ldy, AddressingMode::Immediate)),
        0xAC => Some((Operation::Ldy, AddressingMode::Absolute)),
        0xBC => Some((Operation::Ldy, AddressingMode::XIndexedAbsolute)),
        0xA4 => Some((Operation::Ldy, AddressingMode::ZeroPage)),
        0xB4 => Some((Operation::Ldy, AddressingMode::XIndexedZeroPage)),
        // LSR
        0x4A => Some((Operation::Lsr, AddressingMode::Accumulator)),
        0x4E => Some((Operation::Lsr, AddressingMode::Absolute)),
        0x5E => Some((Operation::Lsr, AddressingMode::XIndexedAbsolute)),
        0x46 => Some((Operation::Lsr, AddressingMode::ZeroPage)),
        0x56 => Some((Operation::Lsr, AddressingMode::XIndexedZeroPage)),
        // NOP
        0xEA => Some((Operation::Nop, AddressingMode::Implied)),
        // ORA
        0x09 => Some((Operation::Ora, AddressingMode::Immediate)),
        0x0D => Some((Operation::Ora, AddressingMode::Absolute)),
        0x1D => Some((Operation::Ora, AddressingMode::XIndexedAbsolute)),
        0x19 => Some((Operation::Ora, AddressingMode::YIndexedAbsolute)),
        0x05 => Some((Operation::Ora, AddressingMode::ZeroPage)),
        0x15 => Some((Operation::Ora, AddressingMode::XIndexedZeroPage)),
        0x01 => Some((Operation::Ora, AddressingMode::XIndexedZeroPageIndirect)),
        0x11 => Some((Operation::Ora, AddressingMode::ZeroPageIndirectYIndexed)),
        // PHA
        0x48 => Some((Operation::Pha, AddressingMode::Implied)),
        // PHP
        0x08 => Some((Operation::Php, AddressingMode::Implied)),
        // PLA
        0x68 => Some((Operation::Pla, AddressingMode::Implied)),
        // PLP
        0x28 => Some((Operation::Plp, AddressingMode::Implied)),
        // ROL
        0x2A => Some((Operation::Rol, AddressingMode::Accumulator)),
        0x2E => Some((Operation::Rol, AddressingMode::Absolute)),
        0x3E => Some((Operation::Rol, AddressingMode::XIndexedAbsolute)),
        0x26 => Some((Operation::Rol, AddressingMode::ZeroPage)),
        0x36 => Some((Operation::Rol, AddressingMode::XIndexedZeroPage)),
        // ROR
        0x6A => Some((Operation::Ror, AddressingMode::Accumulator)),
        0x6E => Some((Operation::Ror, AddressingMode::Absolute)),
        0x7E => Some((Operation::Ror, AddressingMode::XIndexedAbsolute)),
        0x66 => Some((Operation::Ror, AddressingMode::ZeroPage)),
        0x76 => Some((Operation::Ror, AddressingMode::XIndexedZeroPage)),
        // RTI
        0x40 => Some((Operation::Rti, AddressingMode::Implied)),
        // RTS
        0x60 => Some((Operation::Rts, AddressingMode::Implied)),
        // SBC
        0xE9 => Some((Operation::Sbc, AddressingMode::Immediate)),
        0xED => Some((Operation::Sbc, AddressingMode::Absolute)),
        0xFD => Some((Operation::Sbc, AddressingMode::XIndexedAbsolute)),
        0xF9 => Some((Operation::Sbc, AddressingMode::YIndexedAbsolute)),
        0xE5 => Some((Operation::Sbc, AddressingMode::ZeroPage)),
        0xF5 => Some((Operation::Sbc, AddressingMode::XIndexedZeroPage)),
        0xE1 => Some((Operation::Sbc, AddressingMode::XIndexedZeroPageIndirect)),
        0xF1 => Some((Operation::Sbc, AddressingMode::ZeroPageIndirectYIndexed)),
        // SEC
        0x38 => Some((Operation::Sec, AddressingMode::Implied)),
        // SED
        0xF8 => Some((Operation::Sed, AddressingMode::Implied)),
        // SEI
        0x78 => Some((Operation::Sei, AddressingMode::Implied)),
        // STA
        0x8D => Some((Operation::Sta, AddressingMode::Absolute)),
        0x9D => Some((Operation::Sta, AddressingMode::XIndexedAbsolute)),
        0x99 => Some((Operation::Sta, AddressingMode::YIndexedAbsolute)),
        0x85 => Some((Operation::Sta, AddressingMode::ZeroPage)),
        0x95 => Some((Operation::Sta, AddressingMode::XIndexedZeroPage)),
        0x81 => Some((Operation::Sta, AddressingMode::XIndexedZeroPageIndirect)),
        0x91 => Some((Operation::Sta, AddressingMode::ZeroPageIndirectYIndexed)),
        // STX
        0x8E => Some((Operation::Stx, AddressingMode::Absolute)),
        0x86 => Some((Operation::Stx, AddressingMode::ZeroPage)),
        0x96 => Some((Operation::Stx, AddressingMode::YIndexedZeroPage)),
        // STY
        0x8C => Some((Operation::Sty, AddressingMode::Absolute)),
        0x84 => Some((Operation::Sty, AddressingMode::ZeroPage)),
        0x94 => Some((Operation::Sty, AddressingMode::XIndexedZeroPage)),
        // TAX
        0xAA => Some((Operation::Tax, AddressingMode::Implied)),
        // TAY
        0xA8 => Some((Operation::Tay, AddressingMode::Implied)),
        // TSX
        0xBA => Some((Operation::Tsx, AddressingMode::Implied)),
        // TXA
        0x8A => Some((Operation::Txa, AddressingMode::Implied)),
        // TXS
        0x9A => Some((Operation::Txs, AddressingMode::Implied)),
        // TYA
        0x98 => Some((Operation::Tya, AddressingMode::Implied)),
        _ => None,
    }
}

impl Operation {
    /// Whether the operation writes a register to memory.
    pub open spec fn stores(self) -> bool {
        match self {
            Operation::Sta | Operation::Stx | Operation::Sty => true,
            _ => false,
        }
    }

    /// Whether the operation reads a byte, changes it and writes it back
    /// to where it came from.
    pub open spec fn modifies(self) -> bool {
        match self {
            Operation::Asl
            | Operation::Dec
            | Operation::Inc
            | Operation::Lsr
            | Operation::Rol
            | Operation::Ror => true,
            _ => false,
        }
    }

    /// Whether the operation works on the resolved address itself, not on
    /// the byte stored there.
    pub open spec fn takes_address(self) -> bool {
        match self {
            Operation::Jmp | Operation::Jsr => true,
            _ => self.stores(),
        }
    }

    /// The cycles that the operation costs in an addressing mode, before any
    /// surcharge.
    pub open spec fn base_cycles(self, mode: AddressingMode) -> u32 {
        if self.is_branch() {
            2
        } else if self.stores() {
            match mode {
                AddressingMode::ZeroPage => 3,
                AddressingMode::XIndexedZeroPage
                | AddressingMode::YIndexedZeroPage
                | AddressingMode::Absolute => 4,
                AddressingMode::XIndexedAbsolute | AddressingMode::YIndexedAbsolute => 5,
                _ => 6,
            }
        } else if self.modifies() {
            match mode {
                AddressingMode::Accumulator => 2,
                AddressingMode::ZeroPage => 5,
                AddressingMode::XIndexedZeroPage | AddressingMode::Absolute => 6,
                _ => 7,
            }
        } else {
            match self {
                Operation::Brk => 7,
                Operation::Jsr | Operation::Rti | Operation::Rts => 6,
                Operation::Pla | Operation::Plp => 4,
                Operation::Pha | Operation::Php => 3,
                Operation::Jmp => match mode {
                    AddressingMode::Absolute => 3,
                    _ => 5,
                },
                _ => match mode {
                    AddressingMode::Implied | AddressingMode::Immediate => 2,
                    AddressingMode::ZeroPage => 3,
                    AddressingMode::ZeroPageIndirectYIndexed => 5,
                    AddressingMode::XIndexedZeroPageIndirect => 6,
                    _ => 4,
                },
            }
        }
    }

    /// Whether a page crossing costs the operation one cycle more in an
    /// addressing mode: for a branch always, for an operation that only
    /// reads memory where the mode adds an index to a 16-bit address.
    pub open spec fn pays_for_page_crossing(self, mode: AddressingMode) -> bool {
        if self.is_branch() {
            true
        } else if self.stores() || self.modifies() {
            false
        } else {
            match mode {
                AddressingMode::XIndexedAbsolute
                | AddressingMode::YIndexedAbsolute
                | AddressingMode::ZeroPageIndirectYIndexed => true,
                _ => false,
            }
        }
    }

    /// Where the byte that the operation returns goes: the sum of ADC and
    /// the conjunction of AND into the accumulator, what a modifying
    /// operation returns back to where its operand came from. The other
    /// operations return nothing.
    pub open spec fn destination(self, mode: AddressingMode) -> ResultHandler {
        match self {
            Operation::Adc | Operation::And => ResultHandler::IntoAccumulator,
            _ => if self.modifies() {
                match mode {
                    AddressingMode::Accumulator => ResultHandler::IntoAccumulator,
                    _ => ResultHandler::IntoMemory,
                }
            } else {
                ResultHandler::Discard
            },
        }
    }
}

/// The descriptor of an opcode: what it encodes, and what the rules derive
/// from that.
pub open spec fn descriptor(opcode: u8) -> Option<Instruction> {
    match encoding(opcode) {
        Some((operation, mode)) => Some(
            Instruction {
                address_mode: mode,
                operation,
                result_handler: operation.destination(mode),
                value_or_address: if operation.takes_address() {
                    ValueOrAddress::Address
                } else {
                    ValueOrAddress::Value
                },
                cycle_increase: operation.base_cycles(mode),
                cycle_increases_on_page_cross: operation.pays_for_page_crossing(mode),
            },
        ),
        None => None,
    }
}

/// The operation table as a map: one descriptor for each supported opcode.
pub open spec fn instruction_set() -> Map<u8, Instruction> {
    Map::new(|opcode: u8| descriptor(opcode).is_some(), |opcode: u8| descriptor(opcode).unwrap())
}

/// Every descriptor of the table is consistent: it can be executed.
pub proof fn lemma_descriptors_are_consistent(opcode: u8)
    ensures
        descriptor(opcode) matches Some(instruction) ==> instruction.is_consistent(),
{
}

impl CPU {
    /// The descriptor of `opcode`, or `None` where the opcode is not
    /// supported.
    pub fn lookup_instruction(opcode: u8) -> (found: Option<Instruction>)
        ensures
            found == descriptor(opcode),
    {
        match opcode {
            // ADC
            0x69 => Some(
                Instruction {
                    address_mode: AddressingMode::Immediate,
                    operation: Operation::Adc,
                    result_handler: ResultHandler::IntoAccumulator,
                    value_or_address: ValueOrAddress::Value,
                    cycle_increase: 2,
                    cycle_increases_on_page_cross: false,
                },
            ),
            0x6D => Some(
                Instruction {
                    address_mode: AddressingMode::Absolute,
                    operation: Operation::Adc,
                    result_handler: ResultHandler::IntoAccumulator,
                    value_or_address: ValueOrAddress::Value,
                    cycle_increase: 4,
                    cycle_increases_on_page_cross: false,
                },
            ),
            0x7D => Some(
                Instruction {
                    address_mode: AddressingMode::XIndexedAbsolute,
                    operation: Operation::Adc,
                    result_handler: ResultHandler::IntoAccumulator,
                    value_or_address: ValueOrAddress::Value,
                    cycle_increase: 4,
                    cycle_increases_on_page_cross: true,
                },
            ),
            0x79 => Some(
                Instruction {
                    address_mode: AddressingMode::YIndexedAbsolute,
                    operation: Operation::Adc,
                    result_handler: ResultHandler::IntoAccumulator,
                    value_or_address: ValueOrAddress::Value,
                    cycle_increase: 4,
                    cycle_increases_on_page_cross: true,
                },
            ),
            0x65 => Some(
                Instruction {
                    address_mode: AddressingMode::ZeroPage,
                    operation: Operation::Adc,
                    result_handler: ResultHandler::IntoAccumulator,
                    value_or_address: ValueOrAddress::Value,
                    cycle_increase: 3,
                    cycle_increases_on_page_cross: false,
                },
            ),
            0x75 => Some(
                Instruction {
                    address_mode: AddressingMode::XIndexedZeroPage,
                    operation: Operation::Adc,
                    result_handler: ResultHandler::IntoAccumulator,
                    value_or_address: ValueOrAddress::Value,
                    cycle_increase: 4,
                    cycle_increases_on_page_cross: false,
                },
            ),
            0x61 => Some(
                Instruction {
                    address_mode: AddressingMode::XIndexedZeroPageIndirect,
                    operation: Operation::Adc,
                    result_handler: ResultHandler::IntoAccumulator,
                    value_or_address: ValueOrAddress::Value,
                    cycle_increase: 6,
                    cycle_increases_on_page_cross: false,
                },
            ),
            0x71 => Some(
                Instruction {
                    address_mode: AddressingMode::ZeroPageIndirectYIndexed,
                    operation: Operation::Adc,
                    result_handler: ResultHandler::IntoAccumulator,
                    value_or_address: ValueOrAddress::Value,
                    cycle_increase: 5,
                    cycle_increases_on_page_cross: true,
                },
            ),
            // AND
            0x29 => Some(
                Instruction {
                    address_mode: AddressingMode::Immediate,
                    operation: Operation::And,
                    result_handler: ResultHandler::IntoAccumulator,
                    value_or_address: ValueOrAddress::Value,
                    cycle_increase: 2,
                    cycle_increases_on_page_cross: false,
                },
            ),
            0x2D => Some(
                Instruction {
                    address_mode: AddressingMode::Absolute,
                    operation: Operation::And,
                    result_handler: ResultHandler::IntoAccumulator,
                    value_or_address: ValueOrAddress::Value,
                    cycle_increase: 4,
                    cycle_increases_on_page_cross: false,
                },
            ),
            0x3D => Some(
                Instruction {
                    address_mode: AddressingMode::XIndexedAbsolute,
                    operation: Operation::And,
                    result_handler: ResultHandler::IntoAccumulator,
                    value_or_address: ValueOrAddress::Value,
                    cycle_increase: 4,
                    cycle_increases_on_page_cross: true,
                },
            ),
            0x39 => Some(
                Instruction {
                    address_mode: AddressingMode::YIndexedAbsolute,
                    operation: Operation::And,
                    result_handler: ResultHandler::IntoAccumulator,
                    value_or_address: ValueOrAddress::Value,
                    cycle_increase: 4,
                    cycle_increases_on_page_cross: true,
                },
            ),
            0x25 => Some(
                Instruction {
                    address_mode: AddressingMode::ZeroPage,
                    operation: Operation::And,
                    result_handler: ResultHandler::IntoAccumulator,
                    value_or_address: ValueOrAddress::Value,
                    cycle_increase: 3,
                    cycle_increases_on_page_cross: false,
                },
            ),
            0x35 => Some(
                Instruction {
                    address_mode: AddressingMode::XIndexedZeroPage,
                    operation: Operation::And,
                    result_handler: ResultHandler::IntoAccumulator,
                    value_or_address: ValueOrAddress::Value,
                    cycle_increase: 4,
                    cycle_increases_on_page_cross: false,
                },
            ),
            0x21 => Some(
                Instruction {
                    address_mode: AddressingMode::XIndexedZeroPageIndirect,
                    operation: Operation::And,
                    result_handler: ResultHandler::IntoAccumulator,
                    value_or_address: ValueOrAddress::Value,
                    cycle_increase: 6,
                    cycle_increases_on_page_cross: false,
                },
            ),
            0x31 => Some(
                Instruction {
                    address_mode: AddressingMode::ZeroPageIndirectYIndexed,
                    operation: Operation::And,
                    result_handler: ResultHandler::IntoAccumulator,
                    value_or_address: ValueOrAddress::Value,
                    cycle_increase: 5,
                    cycle_increases_on_page_cross: true,
                },
            ),
            // ASL
            0x0A => Some(
                Instruction {
                    address_mode: AddressingMode::Accumulator,
                    operation: Operation::Asl,
                    result_handler: ResultHandler::IntoAccumulator,
                    value_or_address: ValueOrAddress::Value,
                    cycle_increase: 2,
                    cycle_increases_on_page_cross: false,
                },
            ),
            0x0E => Some(
                Instruction {
                    address_mode: AddressingMode::Absolute,
                    operation: Operation::Asl,
                    result_handler: ResultHandler::IntoMemory,
                    value_or_address: ValueOrAddress::Value,
                    cycle_increase: 6,
                    cycle_increases_on_page_cross: false,
                },
            ),
            0x1E => Some(
                Instruction {
                    address_mode: AddressingMode::XIndexedAbsolute,
                    operation: Operation::Asl,
                    result_handler: ResultHandler::IntoMemory,
                    value_or_address: ValueOrAddress::Value,
                    cycle_increase: 7,
                    cycle_increases_on_page_cross: false,
                },
            ),
            0x06 => Some(
                Instruction {
                    address_mode: AddressingMode::ZeroPage,
                    operation: Operation::Asl,
                    result_handler: ResultHandler::IntoMemory,
                    value_or_address: ValueOrAddress::Value,
                    cycle_increase: 5,
                    cycle_increases_on_page_cross: false,
                },
            ),
            0x16 => Some(
                Instruction {
                    address_mode: AddressingMode::XIndexedZeroPage,
                    operation: Operation::Asl,
                    result_handler: ResultHandler::IntoMemory,
                    value_or_address: ValueOrAddress::Value,
                    cycle_increase: 6,
                    cycle_increases_on_page_cross: false,
                },
            ),
            // BCC
            0x90 => Some(
                Instruction {
                    address_mode: AddressingMode::Relative,
                    operation: Operation::Bcc,
                    result_handler: ResultHandler::Discard,
                    value_or_address: ValueOrAddress::Value,
                    cycle_increase: 2,
                    cycle_increases_on_page_cross: true,
                },
            ),
            // BCS
            0xB0 => Some(
                Instruction {
                    address_mode: AddressingMode::Relative,
                    operation: Operation::Bcs,
                    result_handler: ResultHandler::Discard,
                    value_or_address: ValueOrAddress::Value,
                    cycle_increase: 2,
                    cycle_increases_on_page_cross: true,
                },
            ),
            // BEQ
            0xF0 => Some(
                Instruction {
                    address_mode: AddressingMode::Relative,
                    operation: Operation::Beq,
                    result_handler: ResultHandler::Discard,
                    value_or_address: ValueOrAddress::Value,
                    cycle_increase: 2,
                    cycle_increases_on_page_cross: true,
                },
            ),
            // BIT
            0x2C => Some(
                Instruction {
                    address_mode: AddressingMode::Absolute,
                    operation: Operation::Bit,
                    result_handler: ResultHandler::Discard,
                    value_or_address: ValueOrAddress::Value,
                    cycle_increase: 4,
                    cycle_increases_on_page_cross: false,
                },
            ),
            0x24 => Some(
                Instruction {
                    address_mode: AddressingMode::ZeroPage,
                    operation: Operation::Bit,
                    result_handler: ResultHandler::Discard,
                    value_or_address: ValueOrAddress::Value,
                    cycle_increase: 3,
                    cycle_increases_on_page_cross: false,
                },
            ),
            // BMI
            0x30 => Some(
                Instruction {
                    address_mode: AddressingMode::Relative,
                    operation: Operation::Bmi,
                    result_handler: ResultHandler::Discard,
                    value_or_address: ValueOrAddress::Value,
                    cycle_increase: 2,
                    cycle_increases_on_page_cross: true,
                },
            ),
            // BNE
            0xD0 => Some(
                Instruction {
                    address_mode: AddressingMode::Relative,
                    operation: Operation::Bne,
                    result_handler: ResultHandler::Discard,
                    value_or_address: ValueOrAddress::Value,
                    cycle_increase: 2,
                    cycle_increases_on_page_cross: true,
                },
            ),
            // BPL
            0x10 => Some(
                Instruction {
                    address_mode: AddressingMode::Relative,
                    operation: Operation::Bpl,
                    result_handler: ResultHandler::Discard,
                    value_or_address: ValueOrAddress::Value,
                    cycle_increase: 2,
                    cycle_increases_on_page_cross: true,
                },
            ),
            // BRK
            0x00 => Some(
                Instruction {
                    address_mode: AddressingMode::Implied,
                    operation: Operation::Brk,
                    result_handler: ResultHandler::Discard,
                    value_or_address: ValueOrAddress::Value,
                    cycle_increase: 7,
                    cycle_increases_on_page_cross: false,
                },
            ),
            // BVC
            0x50 => Some(
                Instruction {
                    address_mode: AddressingMode::Relative,
                    operation: Operation::Bvc,
                    result_handler: ResultHandler::Discard,
                    value_or_address: ValueOrAddress::Value,
                    cycle_increase: 2,
                    cycle_increases_on_page_cross: true,
                },
            ),
            // BVS
            0x70 => Some(
                Instruction {
                    address_mode: AddressingMode::Relative,
                    operation: Operation::Bvs,
                    result_handler: ResultHandler::Discard,
                    value_or_address: ValueOrAddress::Value,
                    cycle_increase: 2,
                    cycle_increases_on_page_cross: true,
                },
            ),
            // CLC
            0x18 => Some(
                Instruction {
                    address_mode: AddressingMode::Implied,
                    operation: Operation::Clc,
                    result_handler: ResultHandler::Discard,
                    value_or_address: ValueOrAddress::Value,
                    cycle_increase: 2,
                    cycle_increases_on_page_cross: false,
                },
            ),
            // CLD
            0xD8 => Some(
                Instruction {
                    address_mode: AddressingMode::Implied,
                    operation: Operation::Cld,
                    result_handler: ResultHandler::Discard,
                    value_or_address: ValueOrAddress::Value,
                    cycle_increase: 2,
                    cycle_increases_on_page_cross: false,
                },
            ),
            // CLI
            0x58 => Some(
                Instruction {
                    address_mode: AddressingMode::Implied,
                    operation: Operation::Cli,
                    result_handler: ResultHandler::Discard,
                    value_or_address: ValueOrAddress::Value,
                    cycle_increase: 2,
                    cycle_increases_on_page_cross: false,
                },
            ),
            // CLV
            0xB8 => Some(
                Instruction {
                    address_mode: AddressingMode::Implied,
                    operation: Operation::Clv,
                    result_handler: ResultHandler::Discard,
                    value_or_address: ValueOrAddress::Value,
                    cycle_increase: 2,
                    cycle_increases_on_page_cross: false,
                },
            ),
            // CMP
            0xC9 => Some(
                Instruction {
                    address_mode: AddressingMode::Immediate,
                    operation: Operation::Cmp,
                    result_handler: ResultHandler::Discard,
                    value_or_address: ValueOrAddress::Value,
                    cycle_increase: 2,
                    cycle_increases_on_page_cross: false,
                },
            ),
            0xCD => Some(
                Instruction {
                    address_mode: AddressingMode::Absolute,
                    operation: Operation::Cmp,
                    result_handler: ResultHandler::Discard,
                    value_or_address: ValueOrAddress::Value,
                    cycle_increase: 4,
                    cycle_increases_on_page_cross: false,
                },
            ),
            0xDD => Some(
                Instruction {
                    address_mode: AddressingMode::XIndexedAbsolute,
                    operation: Operation::Cmp,
                    result_handler: ResultHandler::Discard,
                    value_or_address: ValueOrAddress::Value,
                    cycle_increase: 4,
                    cycle_increases_on_page_cross: true,
                },
            ),
            0xD9 => Some(
                Instruction {
                    address_mode: AddressingMode::YIndexedAbsolute,
                    operation: Operation::Cmp,
                    result_handler: ResultHandler::Discard,
                    value_or_address: ValueOrAddress::Value,
                    cycle_increase: 4,
                    cycle_increases_on_page_cross: true,
                },
            ),
            0xC5 => Some(
                Instruction {
                    address_mode: AddressingMode::ZeroPage,
                    operation: Operation::Cmp,
                    result_handler: ResultHandler::Discard,
                    value_or_address: ValueOrAddress::Value,
                    cycle_increase: 3,
                    cycle_increases_on_page_cross: false,
                },
            ),
            0xD5 => Some(
                Instruction {
                    address_mode: AddressingMode::XIndexedZeroPage,
                    operation: Operation::Cmp,
                    result_handler: ResultHandler::Discard,
                    value_or_address: ValueOrAddress::Value,
                    cycle_increase: 4,
                    cycle_increases_on_page_cross: false,
                },
            ),
            0xC1 => Some(
                Instruction {
                    address_mode: AddressingMode::XIndexedZeroPageIndirect,
                    operation: Operation::Cmp,
                    result_handler: ResultHandler::Discard,
                    value_or_address: ValueOrAddress::Value,
                    cycle_increase: 6,
                    cycle_increases_on_page_cross: false,
                },
            ),
            0xD1 => Some(
                Instruction {
                    address_mode: AddressingMode::ZeroPageIndirectYIndexed,
                    operation: Operation::Cmp,
                    result_handler: ResultHandler::Discard,
                    value_or_address: ValueOrAddress::Value,
                    cycle_increase: 5,
                    cycle_increases_on_page_cross: true,
                },
            ),
            // CPX
            0xE0 => Some(
                Instruction {
                    address_mode: AddressingMode::Immediate,
                    operation: Operation::Cpx,
                    result_handler: ResultHandler::Discard,
                    value_or_address: ValueOrAddress::Value,
                    cycle_increase: 2,
                    cycle_increases_on_page_cross: false,
                },
            ),
            0xEC => Some(
                Instruction {
                    address_mode: AddressingMode::Absolute,
                    operation: Operation::Cpx,
                    result_handler: ResultHandler::Discard,
                    value_or_address: ValueOrAddress::Value,
                    cycle_increase: 4,
                    cycle_increases_on_page_cross: false,
                },
            ),
            0xE4 => Some(
                Instruction {
                    address_mode: AddressingMode::ZeroPage,
                    operation: Operation::Cpx,
                    result_handler: ResultHandler::Discard,
                    value_or_address: ValueOrAddress::Value,
                    cycle_increase: 3,
                    cycle_increases_on_page_cross: false,
                },
            ),
            // CPY
            0xC0 => Some(
                Instruction {
                    address_mode: AddressingMode::Immediate,
                    operation: Operation::Cpy,
                    result_handler: ResultHandler::Discard,
                    value_or_address: ValueOrAddress::Value,
                    cycle_increase: 2,
                    cycle_increases_on_page_cross: false,
                },
            ),
            0xCC => Some(
                Instruction {
                    address_mode: AddressingMode::Absolute,
                    operation: Operation::Cpy,
                    result_handler: ResultHandler::Discard,
                    value_or_address: ValueOrAddress::Value,
                    cycle_increase: 4,
                    cycle_increases_on_page_cross: false,
                },
            ),
            0xC4 => Some(
                Instruction {
                    address_mode: AddressingMode::ZeroPage,
                    operation: Operation::Cpy,
                    result_handler: ResultHandler::Discard,
                    value_or_address: ValueOrAddress::Value,
                    cycle_increase: 3,
                    cycle_increases_on_page_cross: false,
                },
            ),
            // DEC
            0xCE => Some(
                Instruction {
                    address_mode: AddressingMode::Absolute,
                    operation: Operation::Dec,
                    result_handler: ResultHandler::IntoMemory,
                    value_or_address: ValueOrAddress::Value,
                    cycle_increase: 6,
                    cycle_increases_on_page_cross: false,
                },
            ),
            0xDE => Some(
                Instruction {
                    address_mode: AddressingMode::XIndexedAbsolute,
                    operation: Operation::Dec,
                    result_handler: ResultHandler::IntoMemory,
                    value_or_address: ValueOrAddress::Value,
                    cycle_increase: 7,
                    cycle_increases_on_page_cross: false,
                },
            ),
            0xC6 => Some(
                Instruction {
                    address_mode: AddressingMode::ZeroPage,
                    operation: Operation::Dec,
                    result_handler: ResultHandler::IntoMemory,
                    value_or_address: ValueOrAddress::Value,
                    cycle_increase: 5,
                    cycle_increases_on_page_cross: false,
                },
            ),
            0xD6 => Some(
                Instruction {
                    address_mode: AddressingMode::XIndexedZeroPage,
                    operation: Operation::Dec,
                    result_handler: ResultHandler::IntoMemory,
                    value_or_address: ValueOrAddress::Value,
                    cycle_increase: 6,
                    cycle_increases_on_page_cross: false,
                },
            ),
            // DEX
            0xCA => Some(
                Instruction {
                    address_mode: AddressingMode::Implied,
                    operation: Operation::Dex,
                    result_handler: ResultHandler::Discard,
                    value_or_address: ValueOrAddress::Value,
                    cycle_increase: 2,
                    cycle_increases_on_page_cross: false,
                },
            ),
            // DEY
            0x88 => Some(
                Instruction {
                    address_mode: AddressingMode::Implied,
                    operation: Operation::Dey,
                    result_handler: ResultHandler::Discard,
                    value_or_address: ValueOrAddress::Value,
                    cycle_increase: 2,
                    cycle_increases_on_page_cross: false,
                },
            ),
            // EOR
            0x49 => Some(
                Instruction {
                    address_mode: AddressingMode::Immediate,
                    operation: Operation::Eor,
                    result_handler: ResultHandler::Discard,
                    value_or_address: ValueOrAddress::Value,
                    cycle_increase: 2,
                    cycle_increases_on_page_cross: false,
                },
            ),
            0x4D => Some(
                Instruction {
                    address_mode: AddressingMode::Absolute,
                    operation: Operation::Eor,
                    result_handler: ResultHandler::Discard,
                    value_or_address: ValueOrAddress::Value,
                    cycle_increase: 4,
                    cycle_increases_on_page_cross: false,
                },
            ),
            0x5D => Some(
                Instruction {
                    address_mode: AddressingMode::XIndexedAbsolute,
                    operation: Operation::Eor,
                    result_handler: ResultHandler::Discard,
                    value_or_address: ValueOrAddress::Value,
                    cycle_increase: 4,
                    cycle_increases_on_page_cross: true,
                },
            ),
            0x59 => Some(
                Instruction {
                    address_mode: AddressingMode::YIndexedAbsolute,
                    operation: Operation::Eor,
                    result_handler: ResultHandler::Discard,
                    value_or_address: ValueOrAddress::Value,
                    cycle_increase: 4,
                    cycle_increases_on_page_cross: true,
                },
            ),
            0x45 => Some(
                Instruction {
                    address_mode: AddressingMode::ZeroPage,
                    operation: Operation::Eor,
                    result_handler: ResultHandler::Discard,
                    value_or_address: ValueOrAddress::Value,
                    cycle_increase: 3,
                    cycle_increases_on_page_cross: false,
                },
            ),
            0x55 => Some(
                Instruction {
                    address_mode: AddressingMode::XIndexedZeroPage,
                    operation: Operation::Eor,
                    result_handler: ResultHandler::Discard,
                    value_or_address: ValueOrAddress::Value,
                    cycle_increase: 4,
                    cycle_increases_on_page_cross: false,
                },
            ),
            0x41 => Some(
                Instruction {
                    address_mode: AddressingMode::XIndexedZeroPageIndirect,
                    operation: Operation::Eor,
                    result_handler: ResultHandler::Discard,
                    value_or_address: ValueOrAddress::Value,
                    cycle_increase: 6,
                    cycle_increases_on_page_cross: false,
                },
            ),
            0x51 => Some(
                Instruction {
                    address_mode: AddressingMode::ZeroPageIndirectYIndexed,
                    operation: Operation::Eor,
                    result_handler: ResultHandler::Discard,
                    value_or_address: ValueOrAddress::Value,
                    cycle_increase: 5,
                    cycle_increases_on_page_cross: true,
                },
            ),
            // INC
            0xEE => Some(
                Instruction {
                    address_mode: AddressingMode::Absolute,
                    operation: Operation::Inc,
                    result_handler: ResultHandler::IntoMemory,
                    value_or_address: ValueOrAddress::Value,
                    cycle_increase: 6,
                    cycle_increases_on_page_cross: false,
                },
            ),
            0xFE => Some(
                Instruction {
                    address_mode: AddressingMode::XIndexedAbsolute,
                    operation: Operation::Inc,
                    result_handler: ResultHandler::IntoMemory,
                    value_or_address: ValueOrAddress::Value,
                    cycle_increase: 7,
                    cycle_increases_on_page_cross: false,
                },
            ),
            0xE6 => Some(
                Instruction {
                    address_mode: AddressingMode::ZeroPage,
                    operation: Operation::Inc,
                    result_handler: ResultHandler::IntoMemory,
                    value_or_address: ValueOrAddress::Value,
                    cycle_increase: 5,
                    cycle_increases_on_page_cross: false,
                },
            ),
            0xF6 => Some(
                Instruction {
                    address_mode: AddressingMode::XIndexedZeroPage,
                    operation: Operation::Inc,
                    result_handler: ResultHandler::IntoMemory,
                    value_or_address: ValueOrAddress::Value,
                    cycle_increase: 6,
                    cycle_increases_on_page_cross: false,
                },
            ),
            // INX
            0xE8 => Some(
                Instruction {
                    address_mode: AddressingMode::Implied,
                    operation: Operation::Inx,
                    result_handler: ResultHandler::Discard,
                    value_or_address: ValueOrAddress::Value,
                    cycle_increase: 2,
                    cycle_increases_on_page_cross: false,
                },
            ),
            // INY
            0xC8 => Some(
                Instruction {
                    address_mode: AddressingMode::Implied,
                    operation: Operation::Iny,
                    result_handler: ResultHandler::Discard,
                    value_or_address: ValueOrAddress::Value,
                    cycle_increase: 2,
                    cycle_increases_on_page_cross: false,
                },
            ),
            // JMP
            0x4C => Some(
                Instruction {
                    address_mode: AddressingMode::Absolute,
                    operation: Operation::Jmp,
                    result_handler: ResultHandler::Discard,
                    value_or_address: ValueOrAddress::Address,
                    cycle_increase: 3,
                    cycle_increases_on_page_cross: false,
                },
            ),
            0x6C => Some(
                Instruction {
                    address_mode: AddressingMode::AbsoluteIndirect,
                    operation: Operation::Jmp,
                    result_handler: ResultHandler::Discard,
                    value_or_address: ValueOrAddress::Address,
                    cycle_increase: 5,
                    cycle_increases_on_page_cross: false,
                },
            ),
            // JSR
            0x20 => Some(
                Instruction {
                    address_mode: AddressingMode::Absolute,
                    operation: Operation::Jsr,
                    result_handler: ResultHandler::Discard,
                    value_or_address: ValueOrAddress::Address,
                    cycle_increase: 6,
                    cycle_increases_on_page_cross: false,
                },
            ),
            // LDA
            0xA9 => Some(
                Instruction {
                    address_mode: AddressingMode::Immediate,
                    operation: Operation::Lda,
                    result_handler: ResultHandler::Discard,
                    value_or_address: ValueOrAddress::Value,
                    cycle_increase: 2,
                    cycle_increases_on_page_cross: false,
                },
            ),
            0xAD => Some(
                Instruction {
                    address_mode: AddressingMode::Absolute,
                    operation: Operation::Lda,
                    result_handler: ResultHandler::Discard,
                    value_or_address: ValueOrAddress::Value,
                    cycle_increase: 4,
                    cycle_increases_on_page_cross: false,
                },
            ),
            0xBD => Some(
                Instruction {
                    address_mode: AddressingMode::XIndexedAbsolute,
                    operation: Operation::Lda,
                    result_handler: ResultHandler::Discard,
                    value_or_address: ValueOrAddress::Value,
                    cycle_increase: 4,
                    cycle_increases_on_page_cross: true,
                },
            ),
            0xB9 => Some(
                Instruction {
                    address_mode: AddressingMode::YIndexedAbsolute,
                    operation: Operation::Lda,
                    result_handler: ResultHandler::Discard,
                    value_or_address: ValueOrAddress::Value,
                    cycle_increase: 4,
                    cycle_increases_on_page_cross: true,
                },
            ),
            0xA5 => Some(
                Instruction {
                    address_mode: AddressingMode::ZeroPage,
                    operation: Operation::Lda,
                    result_handler: ResultHandler::Discard,
                    value_or_address: ValueOrAddress::Value,
                    cycle_increase: 3,
                    cycle_increases_on_page_cross: false,
                },
            ),
            0xB5 => Some(
                Instruction {
                    address_mode: AddressingMode::XIndexedZeroPage,
                    operation: Operation::Lda,
                    result_handler: ResultHandler::Discard,
                    value_or_address: ValueOrAddress::Value,
                    cycle_increase: 4,
                    cycle_increases_on_page_cross: false,
                },
            ),
            0xA1 => Some(
                Instruction {
                    address_mode: AddressingMode::XIndexedZeroPageIndirect,
                    operation: Operation::Lda,
                    result_handler: ResultHandler::Discard,
                    value_or_address: ValueOrAddress::Value,
                    cycle_increase: 6,
                    cycle_increases_on_page_cross: false,
                },
            ),
            0xB1 => Some(
                Instruction {
                    address_mode: AddressingMode::ZeroPageIndirectYIndexed,
                    operation: Operation::Lda,
                    result_handler: ResultHandler::Discard,
                    value_or_address: ValueOrAddress::Value,
                    cycle_increase: 5,
                    cycle_increases_on_page_cross: true,
                },
            ),
            // LDX
            0xA2 => Some(
                Instruction {
                    address_mode: AddressingMode::Immediate,
                    operation: Operation::Ldx,
                    result_handler: ResultHandler::Discard,
                    value_or_address: ValueOrAddress::Value,
                    cycle_increase: 2,
                    cycle_increases_on_page_cross: false,
                },
            ),
            0xAE => Some(
                Instruction {
                    address_mode: AddressingMode::Absolute,
                    operation: Operation::Ldx,
                    result_handler: ResultHandler::Discard,
                    value_or_address: ValueOrAddress::Value,
                    cycle_increase: 4,
                    cycle_increases_on_page_cross: false,
                },
            ),
            0xBE => Some(
                Instruction {
                    address_mode: AddressingMode::YIndexedAbsolute,
                    operation: Operation::Ldx,
                    result_handler: ResultHandler::Discard,
                    value_or_address: ValueOrAddress::Value,
                    cycle_increase: 4,
                    cycle_increases_on_page_cross: true,
                },
            ),
            0xA6 => Some(
                Instruction {
                    address_mode: AddressingMode::ZeroPage,
                    operation: Operation::Ldx,
                    result_handler: ResultHandler::Discard,
                    value_or_address: ValueOrAddress::Value,
                    cycle_increase: 3,
                    cycle_increases_on_page_cross: false,
                },
            ),
            0xB6 => Some(
                Instruction {
                    address_mode: AddressingMode::YIndexedZeroPage,
                    operation: Operation::Ldx,
                    result_handler: ResultHandler::Discard,
                    value_or_address: ValueOrAddress::Value,
                    cycle_increase: 4,
                    cycle_increases_on_page_cross: false,
                },
            ),
            // LDY
            0xA0 => Some(
                Instruction {
                    address_mode: AddressingMode::Immediate,
                    operation: Operation::Ldy,
                    result_handler: ResultHandler::Discard,
                    value_or_address: ValueOrAddress::Value,
                    cycle_increase: 2,
                    cycle_increases_on_page_cross: false,
                },
            ),
            0xAC => Some(
                Instruction {
                    address_mode: AddressingMode::Absolute,
                    operation: Operation::Ldy,
                    result_handler: ResultHandler::Discard,
                    value_or_address: ValueOrAddress::Value,
                    cycle_increase: 4,
                    cycle_increases_on_page_cross: false,
                },
            ),
            0xBC => Some(
                Instruction {
                    address_mode: AddressingMode::XIndexedAbsolute,
                    operation: Operation::Ldy,
                    result_handler: ResultHandler::Discard,
                    value_or_address: ValueOrAddress::Value,
                    cycle_increase: 4,
                    cycle_increases_on_page_cross: true,
                },
            ),
            0xA4 => Some(
                Instruction {
                    address_mode: AddressingMode::ZeroPage,
                    operation: Operation::Ldy,
                    result_handler: ResultHandler::Discard,
                    value_or_address: ValueOrAddress::Value,
                    cycle_increase: 3,
                    cycle_increases_on_page_cross: false,
                },
            ),
            0xB4 => Some(
                Instruction {
                    address_mode: AddressingMode::XIndexedZeroPage,
                    operation: Operation::Ldy,
                    result_handler: ResultHandler::Discard,
                    value_or_address: ValueOrAddress::Value,
                    cycle_increase: 4,
                    cycle_increases_on_page_cross: false,
                },
            ),
            // LSR
            0x4A => Some(
                Instruction {
                    address_mode: AddressingMode::Accumulator,
                    operation: Operation::Lsr,
                    result_handler: ResultHandler::IntoAccumulator,
                    value_or_address: ValueOrAddress::Value,
                    cycle_increase: 2,
                    cycle_increases_on_page_cross: false,
                },
            ),
            0x4E => Some(
                Instruction {
                    address_mode: AddressingMode::Absolute,
                    operation: Operation::Lsr,
                    result_handler: ResultHandler::IntoMemory,
                    value_or_address: ValueOrAddress::Value,
                    cycle_increase: 6,
                    cycle_increases_on_page_cross: false,
                },
            ),
            0x5E => Some(
                Instruction {
                    address_mode: AddressingMode::XIndexedAbsolute,
                    operation: Operation::Lsr,
                    result_handler: ResultHandler::IntoMemory,
                    value_or_address: ValueOrAddress::Value,
                    cycle_increase: 7,
                    cycle_increases_on_page_cross: false,
                },
            ),
            0x46 => Some(
                Instruction {
                    address_mode: AddressingMode::ZeroPage,
                    operation: Operation::Lsr,
                    result_handler: ResultHandler::IntoMemory,
                    value_or_address: ValueOrAddress::Value,
                    cycle_increase: 5,
                    cycle_increases_on_page_cross: false,
                },
            ),
            0x56 => Some(
                Instruction {
                    address_mode: AddressingMode::XIndexedZeroPage,
                    operation: Operation::Lsr,
                    result_handler: ResultHandler::IntoMemory,
                    value_or_address: ValueOrAddress::Value,
                    cycle_increase: 6,
                    cycle_increases_on_page_cross: false,
                },
            ),
            // NOP
            0xEA => Some(
                Instruction {
                    address_mode: AddressingMode::Implied,
                    operation: Operation::Nop,
                    result_handler: ResultHandler::Discard,
                    value_or_address: ValueOrAddress::Value,
                    cycle_increase: 2,
                    cycle_increases_on_page_cross: false,
                },
            ),
            // ORA
            0x09 => Some(
                Instruction {
                    address_mode: AddressingMode::Immediate,
                    operation: Operation::Ora,
                    result_handler: ResultHandler::Discard,
                    value_or_address: ValueOrAddress::Value,
                    cycle_increase: 2,
                    cycle_increases_on_page_cross: false,
                },
            ),
            0x0D => Some(
                Instruction {
                    address_mode: AddressingMode::Absolute,
                    operation: Operation::Ora,
                    result_handler: ResultHandler::Discard,
                    value_or_address: ValueOrAddress::Value,
                    cycle_increase: 4,
                    cycle_increases_on_page_cross: false,
                },
            ),
            0x1D => Some(
                Instruction {
                    address_mode: AddressingMode::XIndexedAbsolute,
                    operation: Operation::Ora,
                    result_handler: ResultHandler::Discard,
                    value_or_address: ValueOrAddress::Value,
                    cycle_increase: 4,
                    cycle_increases_on_page_cross: true,
                },
            ),
            0x19 => Some(
                Instruction {
                    address_mode: AddressingMode::YIndexedAbsolute,
                    operation: Operation::Ora,
                    result_handler: ResultHandler::Discard,
                    value_or_address: ValueOrAddress::Value,
                    cycle_increase: 4,
                    cycle_increases_on_page_cross: true,
                },
            ),
            0x05 => Some(
                Instruction {
                    address_mode: AddressingMode::ZeroPage,
                    operation: Operation::Ora,
                    result_handler: ResultHandler::Discard,
                    value_or_address: ValueOrAddress::Value,
                    cycle_increase: 3,
                    cycle_increases_on_page_cross: false,
                },
            ),
            0x15 => Some(
                Instruction {
                    address_mode: AddressingMode::XIndexedZeroPage,
                    operation: Operation::Ora,
                    result_handler: ResultHandler::Discard,
                    value_or_address: ValueOrAddress::Value,
                    cycle_increase: 4,
                    cycle_increases_on_page_cross: false,
                },
            ),
            0x01 => Some(
                Instruction {
                    address_mode: AddressingMode::XIndexedZeroPageIndirect,
                    operation: Operation::Ora,
                    result_handler: ResultHandler::Discard,
                    value_or_address: ValueOrAddress::Value,
                    cycle_increase: 6,
                    cycle_increases_on_page_cross: false,
                },
            ),
            0x11 => Some(
                Instruction {
                    address_mode: AddressingMode::ZeroPageIndirectYIndexed,
                    operation: Operation::Ora,
                    result_handler: ResultHandler::Discard,
                    value_or_address: ValueOrAddress::Value,
                    cycle_increase: 5,
                    cycle_increases_on_page_cross: true,
                },
            ),
            // PHA
            0x48 => Some(
                Instruction {
                    address_mode: AddressingMode::Implied,
                    operation: Operation::Pha,
                    result_handler: ResultHandler::Discard,
                    value_or_address: ValueOrAddress::Value,
                    cycle_increase: 3,
                    cycle_increases_on_page_cross: false,
                },
            ),
            // PHP
            0x08 => Some(
                Instruction {
                    address_mode: AddressingMode::Implied,
                    operation: Operation::Php,
                    result_handler: ResultHandler::Discard,
                    value_or_address: ValueOrAddress::Value,
                    cycle_increase: 3,
                    cycle_increases_on_page_cross: false,
                },
            ),
            // PLA
            0x68 => Some(
                Instruction {
                    address_mode: AddressingMode::Implied,
                    operation: Operation::Pla,
                    result_handler: ResultHandler::Discard,
                    value_or_address: ValueOrAddress::Value,
                    cycle_increase: 4,
                    cycle_increases_on_page_cross: false,
                },
            ),
            // PLP
            0x28 => Some(
                Instruction {
                    address_mode: AddressingMode::Implied,
                    operation: Operation::Plp,
                    result_handler: ResultHandler::Discard,
                    value_or_address: ValueOrAddress::Value,
                    cycle_increase: 4,
                    cycle_increases_on_page_cross: false,
                },
            ),
            // ROL
            0x2A => Some(
                Instruction {
                    address_mode: AddressingMode::Accumulator,
                    operation: Operation::Rol,
                    result_handler: ResultHandler::IntoAccumulator,
                    value_or_address: ValueOrAddress::Value,
                    cycle_increase: 2,
                    cycle_increases_on_page_cross: false,
                },
            ),
            0x2E => Some(
                Instruction {
                    address_mode: AddressingMode::Absolute,
                    operation: Operation::Rol,
                    result_handler: ResultHandler::IntoMemory,
                    value_or_address: ValueOrAddress::Value,
                    cycle_increase: 6,
                    cycle_increases_on_page_cross: false,
                },
            ),
            0x3E => Some(
                Instruction {
                    address_mode: AddressingMode::XIndexedAbsolute,
                    operation: Operation::Rol,
                    result_handler: ResultHandler::IntoMemory,
                    value_or_address: ValueOrAddress::Value,
                    cycle_increase: 7,
                    cycle_increases_on_page_cross: false,
                },
            ),
            0x26 => Some(
                Instruction {
                    address_mode: AddressingMode::ZeroPage,
                    operation: Operation::Rol,
                    result_handler: ResultHandler::IntoMemory,
                    value_or_address: ValueOrAddress::Value,
                    cycle_increase: 5,
                    cycle_increases_on_page_cross: false,
                },
            ),
            0x36 => Some(
                Instruction {
                    address_mode: AddressingMode::XIndexedZeroPage,
                    operation: Operation::Rol,
                    result_handler: ResultHandler::IntoMemory,
                    value_or_address: ValueOrAddress::Value,
                    cycle_increase: 6,
                    cycle_increases_on_page_cross: false,
                },
            ),
            // ROR
            0x6A => Some(
                Instruction {
                    address_mode: AddressingMode::Accumulator,
                    operation: Operation::Ror,
                    result_handler: ResultHandler::IntoAccumulator,
                    value_or_address: ValueOrAddress::Value,
                    cycle_increase: 2,
                    cycle_increases_on_page_cross: false,
                },
            ),
            0x6E => Some(
                Instruction {
                    address_mode: AddressingMode::Absolute,
                    operation: Operation::Ror,
                    result_handler: ResultHandler::IntoMemory,
                    value_or_address: ValueOrAddress::Value,
                    cycle_increase: 6,
                    cycle_increases_on_page_cross: false,
                },
            ),
            0x7E => Some(
                Instruction {
                    address_mode: AddressingMode::XIndexedAbsolute,
                    operation: Operation::Ror,
                    result_handler: ResultHandler::IntoMemory,
                    value_or_address: ValueOrAddress::Value,
                    cycle_increase: 7,
                    cycle_increases_on_page_cross: false,
                },
            ),
            0x66 => Some(
                Instruction {
                    address_mode: AddressingMode::ZeroPage,
                    operation: Operation::Ror,
                    result_handler: ResultHandler::IntoMemory,
                    value_or_address: ValueOrAddress::Value,
                    cycle_increase: 5,
                    cycle_increases_on_page_cross: false,
                },
            ),
            0x76 => Some(
                Instruction {
                    address_mode: AddressingMode::XIndexedZeroPage,
                    operation: Operation::Ror,
                    result_handler: ResultHandler::IntoMemory,
                    value_or_address: ValueOrAddress::Value,
                    cycle_increase: 6,
                    cycle_increases_on_page_cross: false,
                },
            ),
            // RTI
            0x40 => Some(
                Instruction {
                    address_mode: AddressingMode::Implied,
                    operation: Operation::Rti,
                    result_handler: ResultHandler::Discard,
                    value_or_address: ValueOrAddress::Value,
                    cycle_increase: 6,
                    cycle_increases_on_page_cross: false,
                },
            ),
            // RTS
            0x60 => Some(
                Instruction {
                    address_mode: AddressingMode::Implied,
                    operation: Operation::Rts,
                    result_handler: ResultHandler::Discard,
                    value_or_address: ValueOrAddress::Value,
                    cycle_increase: 6,
                    cycle_increases_on_page_cross: false,
                },
            ),
            // SBC
            0xE9 => Some(
                Instruction {
                    address_mode: AddressingMode::Immediate,
                    operation: Operation::Sbc,
                    result_handler: ResultHandler::Discard,
                    value_or_address: ValueOrAddress::Value,
                    cycle_increase: 2,
                    cycle_increases_on_page_cross: false,
                },
            ),
            0xED => Some(
                Instruction {
                    address_mode: AddressingMode::Absolute,
                    operation: Operation::Sbc,
                    result_handler: ResultHandler::Discard,
                    value_or_address: ValueOrAddress::Value,
                    cycle_increase: 4,
                    cycle_increases_on_page_cross: false,
                },
            ),
            0xFD => Some(
                Instruction {
                    address_mode: AddressingMode::XIndexedAbsolute,
                    operation: Operation::Sbc,
                    result_handler: ResultHandler::Discard,
                    value_or_address: ValueOrAddress::Value,
                    cycle_increase: 4,
                    cycle_increases_on_page_cross: true,
                },
            ),
            0xF9 => Some(
                Instruction {
                    address_mode: AddressingMode::YIndexedAbsolute,
                    operation: Operation::Sbc,
                    result_handler: ResultHandler::Discard,
                    value_or_address: ValueOrAddress::Value,
                    cycle_increase: 4,
                    cycle_increases_on_page_cross: true,
                },
            ),
            0xE5 => Some(
                Instruction {
                    address_mode: AddressingMode::ZeroPage,
                    operation: Operation::Sbc,
                    result_handler: ResultHandler::Discard,
                    value_or_address: ValueOrAddress::Value,
                    cycle_increase: 3,
                    cycle_increases_on_page_cross: false,
                },
            ),
            0xF5 => Some(
                Instruction {
                    address_mode: AddressingMode::XIndexedZeroPage,
                    operation: Operation::Sbc,
                    result_handler: ResultHandler::Discard,
                    value_or_address: ValueOrAddress::Value,
                    cycle_increase: 4,
                    cycle_increases_on_page_cross: false,
                },
            ),
            0xE1 => Some(
                Instruction {
                    address_mode: AddressingMode::XIndexedZeroPageIndirect,
                    operation: Operation::Sbc,
                    result_handler: ResultHandler::Discard,
                    value_or_address: ValueOrAddress::Value,
                    cycle_increase: 6,
                    cycle_increases_on_page_cross: false,
                },
            ),
            0xF1 => Some(
                Instruction {
                    address_mode: AddressingMode::ZeroPageIndirectYIndexed,
                    operation: Operation::Sbc,
                    result_handler: ResultHandler::Discard,
                    value_or_address: ValueOrAddress::Value,
                    cycle_increase: 5,
                    cycle_increases_on_page_cross: true,
                },
            ),
            // SEC
            0x38 => Some(
                Instruction {
                    address_mode: AddressingMode::Implied,
                    operation: Operation::Sec,
                    result_handler: ResultHandler::Discard,
                    value_or_address: ValueOrAddress::Value,
                    cycle_increase: 2,
                    cycle_increases_on_page_cross: false,
                },
            ),
            // SED
            0xF8 => Some(
                Instruction {
                    address_mode: AddressingMode::Implied,
                    operation: Operation::Sed,
                    result_handler: ResultHandler::Discard,
                    value_or_address: ValueOrAddress::Value,
                    cycle_increase: 2,
                    cycle_increases_on_page_cross: false,
                },
            ),
            // SEI
            0x78 => Some(
                Instruction {
                    address_mode: AddressingMode::Implied,
                    operation: Operation::Sei,
                    result_handler: ResultHandler::Discard,
                    value_or_address: ValueOrAddress::Value,
                    cycle_increase: 2,
                    cycle_increases_on_page_cross: false,
                },
            ),
            // STA
            0x8D => Some(
                Instruction {
                    address_mode: AddressingMode::Absolute,
                    operation: Operation::Sta,
                    result_handler: ResultHandler::Discard,
                    value_or_address: ValueOrAddress::Address,
                    cycle_increase: 4,
                    cycle_increases_on_page_cross: false,
                },
            ),
            0x9D => Some(
                Instruction {
                    address_mode: AddressingMode::XIndexedAbsolute,
                    operation: Operation::Sta,
                    result_handler: ResultHandler::Discard,
                    value_or_address: ValueOrAddress::Address,
                    cycle_increase: 5,
                    cycle_increases_on_page_cross: false,
                },
            ),
            0x99 => Some(
                Instruction {
                    address_mode: AddressingMode::YIndexedAbsolute,
                    operation: Operation::Sta,
                    result_handler: ResultHandler::Discard,
                    value_or_address: ValueOrAddress::Address,
                    cycle_increase: 5,
                    cycle_increases_on_page_cross: false,
                },
            ),
            0x85 => Some(
                Instruction {
                    address_mode: AddressingMode::ZeroPage,
                    operation: Operation::Sta,
                    result_handler: ResultHandler::Discard,
                    value_or_address: ValueOrAddress::Address,
                    cycle_increase: 3,
                    cycle_increases_on_page_cross: false,
                },
            ),
            0x95 => Some(
                Instruction {
                    address_mode: AddressingMode::XIndexedZeroPage,
                    operation: Operation::Sta,
                    result_handler: ResultHandler::Discard,
                    value_or_address: ValueOrAddress::Address,
                    cycle_increase: 4,
                    cycle_increases_on_page_cross: false,
                },
            ),
            0x81 => Some(
                Instruction {
                    address_mode: AddressingMode::XIndexedZeroPageIndirect,
                    operation: Operation::Sta,
                    result_handler: ResultHandler::Discard,
                    value_or_address: ValueOrAddress::Address,
                    cycle_increase: 6,
                    cycle_increases_on_page_cross: false,
                },
            ),
            0x91 => Some(
                Instruction {
                    address_mode: AddressingMode::ZeroPageIndirectYIndexed,
                    operation: Operation::Sta,
                    result_handler: ResultHandler::Discard,
                    value_or_address: ValueOrAddress::Address,
                    cycle_increase: 6,
                    cycle_increases_on_page_cross: false,
                },
            ),
            // STX
            0x8E => Some(
                Instruction {
                    address_mode: AddressingMode::Absolute,
                    operation: Operation::Stx,
                    result_handler: ResultHandler::Discard,
                    value_or_address: ValueOrAddress::Address,
                    cycle_increase: 4,
                    cycle_increases_on_page_cross: false,
                },
            ),
            0x86 => Some(
                Instruction {
                    address_mode: AddressingMode::ZeroPage,
                    operation: Operation::Stx,
                    result_handler: ResultHandler::Discard,
                    value_or_address: ValueOrAddress::Address,
                    cycle_increase: 3,
                    cycle_increases_on_page_cross: false,
                },
            ),
            0x96 => Some(
                Instruction {
                    address_mode: AddressingMode::YIndexedZeroPage,
                    operation: Operation::Stx,
                    result_handler: ResultHandler::Discard,
                    value_or_address: ValueOrAddress::Address,
                    cycle_increase: 4,
                    cycle_increases_on_page_cross: false,
                },
            ),
            // STY
            0x8C => Some(
                Instruction {
                    address_mode: AddressingMode::Absolute,
                    operation: Operation::Sty,
                    result_handler: ResultHandler::Discard,
                    value_or_address: ValueOrAddress::Address,
                    cycle_increase: 4,
                    cycle_increases_on_page_cross: false,
                },
            ),
            0x84 => Some(
                Instruction {
                    address_mode: AddressingMode::ZeroPage,
                    operation: Operation::Sty,
                    result_handler: ResultHandler::Discard,
                    value_or_address: ValueOrAddress::Address,
                    cycle_increase: 3,
                    cycle_increases_on_page_cross: false,
                },
            ),
            0x94 => Some(
                Instruction {
                    address_mode: AddressingMode::XIndexedZeroPage,
                    operation: Operation::Sty,
                    result_handler: ResultHandler::Discard,
                    value_or_address: ValueOrAddress::Address,
                    cycle_increase: 4,
                    cycle_increases_on_page_cross: false,
                },
            ),
            // TAX
            0xAA => Some(
                Instruction {
                    address_mode: AddressingMode::Implied,
                    operation: Operation::Tax,
                    result_handler: ResultHandler::Discard,
                    value_or_address: ValueOrAddress::Value,
                    cycle_increase: 2,
                    cycle_increases_on_page_cross: false,
                },
            ),
            // TAY
            0xA8 => Some(
                Instruction {
                    address_mode: AddressingMode::Implied,
                    operation: Operation::Tay,
                    result_handler: ResultHandler::Discard,
                    value_or_address: ValueOrAddress::Value,
                    cycle_increase: 2,
                    cycle_increases_on_page_cross: false,
                },
            ),
            // TSX
            0xBA => Some(
                Instruction {
                    address_mode: AddressingMode::Implied,
                    operation: Operation::Tsx,
                    result_handler: ResultHandler::Discard,
                    value_or_address: ValueOrAddress::Value,
                    cycle_increase: 2,
                    cycle_increases_on_page_cross: false,
                },
            ),
            // TXA
            0x8A => Some(
                Instruction {
                    address_mode: AddressingMode::Implied,
                    operation: Operation::Txa,
                    result_handler: ResultHandler::Discard,
                    value_or_address: ValueOrAddress::Value,
                    cycle_increase: 2,
                    cycle_increases_on_page_cross: false,
                },
            ),
            // TXS
            0x9A => Some(
                Instruction {
                    address_mode: AddressingMode::Implied,
                    operation: Operation::Txs,
                    result_handler: ResultHandler::Discard,
                    value_or_address: ValueOrAddress::Value,
                    cycle_increase: 2,
                    cycle_increases_on_page_cross: false,
                },
            ),
            // TYA
            0x98 => Some(
                Instruction {
                    address_mode: AddressingMode::Implied,
                    operation: Operation::Tya,
                    result_handler: ResultHandler::Discard,
                    value_or_address: ValueOrAddress::Value,
                    cycle_increase: 2,
                    cycle_increases_on_page_cross: false,
                },
            ),
            _ => None,
        }
    }

    /// The operation table: the descriptor of every supported opcode, by
    /// opcode.
    pub fn get_instruction_set(&self) -> (set: HashMap<u8, Instruction>)
        ensures
            set@ == instruction_set(),
    {
        let mut set: HashMap<u8, Instruction> = HashMap::new();
        let mut next: u16 = 0;
        while next < 256
            invariant
                next <= 256,
                forall|opcode: u8| set@.contains_key(opcode) <==> opcode < next && descriptor(opcode).is_some(),
                forall|opcode: u8| #[trigger] set@.contains_key(opcode) ==> Some(set@[opcode]) == descriptor(opcode),
            decreases 256 - next,
        {
            let opcode = next as u8;
            match CPU::lookup_instruction(opcode) {
                Some(instruction) => {
                    set.insert(opcode, instruction);
                },
                None => {},
            }
            next += 1;
        }
        assert(set@ =~= instruction_set());
        set
    }

    /// Puts the byte an operation returned into the accumulator.
    pub fn result_into_acc(&mut self, value: Option<u8>, address: Option<u16>)
        requires
            value.is_some(),
        ensures
            final(self)@ == old(self)@.commit(ResultHandler::IntoAccumulator, value, address),
    {
        match value {
            Some(byte) => {
                self.registers.acc = byte;
            },
            None => {},
        }
    }

    /// Stores the byte an operation returned at the resolved address.
    pub fn result_into_memory(&mut self, value: Option<u8>, address: Option<u16>)
        requires
            old(self).wf(),
            value.is_some(),
            address.is_some(),
        ensures
            final(self).wf(),
            final(self)@ == old(self)@.commit(ResultHandler::IntoMemory, value, address),
    {
        match (address, value) {
            (Some(result_address), Some(byte)) => {
                self.memory[result_address as usize] = byte;
            },
            _ => {},
        }
    }

    /// Drops what an operation returned.
    pub fn no_handler(&mut self, value: Option<u8>, address: Option<u16>)
        ensures
            final(self)@ == old(self)@.commit(ResultHandler::Discard, value, address),
    {
    }

    /// Hands what an operation returned to the result handler that the
    /// instruction names.
    pub fn commit(&mut self, handler: ResultHandler, value: Option<u8>, address: Option<u16>)
        requires
            old(self).wf(),
            handler == ResultHandler::IntoAccumulator ==> value.is_some(),
            handler == ResultHandler::IntoMemory ==> value.is_some() && address.is_some(),
        ensures
            final(self).wf(),
            final(self)@ == old(self)@.commit(handler, value, address),
    {
        match handler {
            ResultHandler::IntoAccumulator => self.result_into_acc(value, address),
            ResultHandler::IntoMemory => self.result_into_memory(value, address),
            ResultHandler::Discard => self.no_handler(value, address),
        }
    }
}

} // verus!
