//! Instruction descriptors: what an opcode stands for.

use vstd::prelude::*;
use crate::addressing::{page_crossed, pages_differ};
use crate::bitwise::wrap_word;
use crate::cpu::{CPU, MEMORY_SIZE};
use crate::machine::Machine;

verus! {

/// The operand handed to an operation.
#[derive(Clone, Copy, Debug, PartialEq, Eq)]
pub enum InstructionParameter {
    /// No operand.
    Nothing,
    /// A byte: an immediate value, a register, or the byte stored at the
    /// resolved address.
    Byte(u8),
    /// A 16-bit address.
    Word(u16),
}

/// Whether an operation works on the byte stored at the resolved address or
/// on the address itself.
#[derive(Clone, Copy, Debug, PartialEq, Eq)]
pub enum ValueOrAddress {
    /// The operation reads the byte stored at the resolved address.
    Value,
    /// The operation takes the resolved address: it jumps or stores there.
    Address,
}

/// The rule by which an instruction finds its operand.
#[derive(Clone, Copy, Debug, PartialEq, Eq)]
pub enum AddressingMode {
    /// No operand.
    Implied,
    /// The operand is the byte after the opcode.
    Immediate,
    /// The operand is the accumulator.
    Accumulator,
    /// The two bytes after the opcode are the address, low byte first.
    Absolute,
    /// The two bytes after the opcode point at the address.
    AbsoluteIndirect,
    /// The two bytes after the opcode plus X are the address.
    XIndexedAbsolute,
    /// The two bytes after the opcode plus Y are the address.
    YIndexedAbsolute,
    /// The byte after the opcode is an address in the zero page.
    ZeroPage,
    /// The byte after the opcode plus X, wrapped within the zero page.
    XIndexedZeroPage,
    /// The byte after the opcode plus Y, wrapped within the zero page.
    YIndexedZeroPage,
    /// The byte after the opcode plus X points, within the zero page, at
    /// the address.
    XIndexedZeroPageIndirect,
    /// The byte after the opcode points, within the zero page, at an
    /// address, to which Y is added.
    ZeroPageIndirectYIndexed,
    /// The byte after the opcode is a signed offset for a branch.
    Relative,
}

/// The operations of the instruction set, by mnemonic.
#[derive(Clone, Copy, Debug, PartialEq, Eq)]
pub enum Operation {
    Adc,
    And,
    Asl,
    Bcc,
    Bcs,
    Beq,
    Bit,
    Bmi,
    Bne,
    Bpl,
    Brk,
    Bvc,
    Bvs,
    Clc,
    Cld,
    Cli,
    Clv,
    Cmp,
    Cpx,
    Cpy,
    Dec,
    Dex,
    Dey,
    Eor,
    Inc,
    Inx,
    Iny,
    Jmp,
    Jsr,
    Lda,
    Ldx,
    Ldy,
    Lsr,
    Nop,
    Ora,
    Pha,
    Php,
    Pla,
    Plp,
    Rol,
    Ror,
    Rti,
    Rts,
    Sbc,
    Sec,
    Sed,
    Sei,
    Sta,
    Stx,
    Sty,
    Tax,
    Tay,
    Tsx,
    Txa,
    Txs,
    Tya,
}

/// Where the byte returned by an operation goes.
#[derive(Clone, Copy, Debug, PartialEq, Eq)]
pub enum ResultHandler {
    /// Into the accumulator.
    IntoAccumulator,
    /// Into memory, at the resolved address.
    IntoMemory,
    /// Nowhere: the operation has written what it changes itself.
    Discard,
}

/// The descriptor of one opcode.
#[derive(Clone, Copy, Debug, PartialEq, Eq)]
pub struct Instruction {
    /// How the operand is found.
    pub address_mode: AddressingMode,
    /// What is done with it.
    pub operation: Operation,
    /// Where the byte that the operation returns goes.
    pub result_handler: ResultHandler,
    /// Whether the operation takes the byte at the resolved address or the
    /// address itself.
    pub value_or_address: ValueOrAddress,
    /// The cycles the instruction costs at least.
    pub cycle_increase: u32,
    /// Whether crossing a page costs one cycle more.
    pub cycle_increases_on_page_cross: bool,
}

impl AddressingMode {
    /// How many bytes of the instruction stream follow the opcode.
    pub open spec fn operand_length(self) -> nat {
        match self {
            AddressingMode::Implied | AddressingMode::Accumulator => 0,
            AddressingMode::Absolute
            | AddressingMode::AbsoluteIndirect
            | AddressingMode::XIndexedAbsolute
            | AddressingMode::YIndexedAbsolute => 2,
            _ => 1,
        }
    }

    /// Whether the mode resolves to an address in memory.
    pub open spec fn addresses_memory(self) -> bool {
        match self {
            AddressingMode::Implied
            | AddressingMode::Immediate
            | AddressingMode::Accumulator
            | AddressingMode::Relative => false,
            _ => true,
        }
    }

    /// Whether an operation reached through this mode is handed a byte.
    pub open spec fn supplies_byte(self, kind: ValueOrAddress) -> bool {
        match self {
            AddressingMode::Implied => false,
            AddressingMode::Immediate
            | AddressingMode::Accumulator
            | AddressingMode::Relative => true,
            _ => kind == ValueOrAddress::Value,
        }
    }
}

impl Operation {
    /// Whether the operation conditionally adds an offset to the program
    /// counter.
    pub open spec fn is_branch(self) -> bool {
        match self {
            Operation::Bcc
            | Operation::Bcs
            | Operation::Beq
            | Operation::Bmi
            | Operation::Bne
            | Operation::Bpl
            | Operation::Bvc
            | Operation::Bvs => true,
            _ => false,
        }
    }

    /// Whether the operation may send the program counter elsewhere than to
    /// the next instruction.
    pub open spec fn redirects(self) -> bool {
        match self {
            Operation::Brk | Operation::Jmp | Operation::Jsr | Operation::Rti | Operation::Rts => true,
            _ => self.is_branch(),
        }
    }

    /// Whether the operation, handed a byte, returns a byte to be committed.
    pub open spec fn returns_byte(self) -> bool {
        match self {
            Operation::Adc
            | Operation::And
            | Operation::Asl
            | Operation::Dec
            | Operation::Inc
            | Operation::Lsr
            | Operation::Rol
            | Operation::Ror => true,
            _ => false,
        }
    }
}

impl Instruction {
    /// Whether the descriptor's parts fit together: a handler that commits a
    /// byte is paired with an operation and a mode that produce one, and a
    /// handler that writes to memory with a mode that resolves an address.
    pub open spec fn is_consistent(self) -> bool {
        match self.result_handler {
            ResultHandler::Discard => true,
            ResultHandler::IntoAccumulator => self.yields_byte(),
            ResultHandler::IntoMemory => self.yields_byte() && self.address_mode.addresses_memory(),
        }
    }

    /// Whether executing the descriptor makes its operation return a byte.
    pub open spec fn yields_byte(self) -> bool {
        self.operation.returns_byte() && self.address_mode.supplies_byte(self.value_or_address)
    }
}

impl Machine {
    /// The state after a result handler has disposed of what an operation
    /// returned. A handler that lacks the byte or the address it writes
    /// leaves the state as it is.
    pub open spec fn commit(self, handler: ResultHandler, value: Option<u8>, address: Option<u16>) -> Machine {
        match (handler, value, address) {
            (ResultHandler::IntoAccumulator, Some(byte), _) => self.with_acc(byte),
            (ResultHandler::IntoMemory, Some(byte), Some(target)) => self.write(target as int, byte),
            _ => self,
        }
    }

    /// The state after an instruction's operation has been carried out on a
    /// resolved `address` and the byte `value` stored there, and its result
    /// committed.
    pub open spec fn handle(self, instruction: Instruction, address: u16, value: u8) -> Machine {
        let parameter = match instruction.value_or_address {
            ValueOrAddress::Value => InstructionParameter::Byte(value),
            ValueOrAddress::Address => InstructionParameter::Word(address),
        };
        let (operated, result) = self.operate(instruction.operation, parameter);
        operated.commit(instruction.result_handler, result, Some(address))
    }

    /// The cycles that executing an instruction counts on top of what its
    /// operation counts itself: the base cost, and one more where the
    /// instruction pays for page crossings and one happened. For the
    /// relative mode the crossing is that of the program counter from before
    /// the operation to after it; for the other modes, that of indexing.
    pub open spec fn cost(instruction: Instruction, indexing_crossed: bool, before: u16, after: u16) -> nat {
        let crossed = match instruction.address_mode {
            AddressingMode::Relative => pages_differ(before, after),
            _ => indexing_crossed,
        };
        if instruction.cycle_increases_on_page_cross && crossed {
            instruction.cycle_increase as nat + 1
        } else {
            instruction.cycle_increase as nat
        }
    }

    /// The state after executing one instruction whose operand bytes start
    /// at the program counter: the operand is resolved, the operation
    /// carried out on it, its result committed, and the cycles counted.
    pub open spec fn execute(self, instruction: Instruction, bytes: Seq<u8>) -> Machine {
        let (resolved, operand) = self.resolve(instruction.address_mode, bytes);
        let (operated, result) = resolved.operate(
            instruction.operation,
            operand.parameter(instruction.value_or_address),
        );
        operated.commit(instruction.result_handler, result, operand.address).charged(
            Self::cost(
                instruction,
                operand.page_crossed,
                resolved.registers.pc,
                operated.registers.pc,
            ),
        )
    }

    /// One instruction leaves the program counter at the next opcode, past
    /// the operand bytes of its addressing mode, unless its operation is one
    /// of those that redirect it.
    pub proof fn lemma_execute_advances(self, instruction: Instruction, bytes: Seq<u8>)
        ensures
            !instruction.operation.redirects() ==> self.execute(instruction, bytes).registers.pc
                == wrap_word(self.registers.pc + instruction.address_mode.operand_length()),
    {
        let (resolved, operand) = self.resolve(instruction.address_mode, bytes);
        resolved.lemma_operate_keeps_pc(
            instruction.operation,
            operand.parameter(instruction.value_or_address),
        );
    }

    /// One instruction never takes cycles back: it counts its base cost, and
    /// at most two cycles more, one for a taken branch and one for a page
    /// crossing. An instruction that is no branch and does not pay for page
    /// crossings counts its base cost exactly. The size of memory stays.
    pub proof fn lemma_execute_counts(self, instruction: Instruction, bytes: Seq<u8>)
        requires
            self.covers_address_space(),
        ensures
            self.execute(instruction, bytes).memory.len() == self.memory.len(),
            self.cycles + instruction.cycle_increase <= self.execute(instruction, bytes).cycles
                <= self.cycles + instruction.cycle_increase + 2,
            !instruction.operation.is_branch() && !instruction.cycle_increases_on_page_cross
                ==> self.execute(instruction, bytes).cycles == self.cycles
                + instruction.cycle_increase,
    {
        let (resolved, operand) = self.resolve(instruction.address_mode, bytes);
        resolved.lemma_operate_keeps(
            instruction.operation,
            operand.parameter(instruction.value_or_address),
        );
    }

    /// Whatever is executed, every register stays within its width: the
    /// 8-bit registers between 0 and 255, the program counter between 0 and
    /// 65535. Arithmetic on them wraps.
    pub proof fn lemma_execute_stays_in_range(self, instruction: Instruction, bytes: Seq<u8>)
        ensures
            0 <= self.execute(instruction, bytes).registers.acc <= 255,
            0 <= self.execute(instruction, bytes).registers.xr <= 255,
            0 <= self.execute(instruction, bytes).registers.yr <= 255,
            0 <= self.execute(instruction, bytes).registers.sp <= 255,
            0 <= self.execute(instruction, bytes).registers.sr <= 255,
            0 <= self.execute(instruction, bytes).registers.pc <= 65535,
    {
    }
}

impl AddressingMode {
    /// How many bytes of the instruction stream follow the opcode.
    pub fn operand_bytes(&self) -> (length: u16)
        ensures
            length == self.operand_length(),
    {
        match self {
            AddressingMode::Implied | AddressingMode::Accumulator => 0,
            AddressingMode::Absolute
            | AddressingMode::AbsoluteIndirect
            | AddressingMode::XIndexedAbsolute
            | AddressingMode::YIndexedAbsolute => 2,
            _ => 1,
        }
    }
}

impl Instruction {
    /// Whether the descriptor's parts fit together, so that it can be
    /// executed.
    pub fn check_consistent(&self) -> (consistent: bool)
        ensures
            consistent == self.is_consistent(),
    {
        let returns_byte = matches!(
            self.operation,
            Operation::Adc
                | Operation::And
                | Operation::Asl
                | Operation::Dec
                | Operation::Inc
                | Operation::Lsr
                | Operation::Rol
                | Operation::Ror
        );
        let addresses_memory = !matches!(
            self.address_mode,
            AddressingMode::Implied
                | AddressingMode::Immediate
                | AddressingMode::Accumulator
                | AddressingMode::Relative
        );
        let supplies_byte = if addresses_memory {
            matches!(self.value_or_address, ValueOrAddress::Value)
        } else {
            !matches!(self.address_mode, AddressingMode::Implied)
        };
        match self.result_handler {
            ResultHandler::Discard => true,
            ResultHandler::IntoAccumulator => returns_byte && supplies_byte,
            ResultHandler::IntoMemory => returns_byte && supplies_byte && addresses_memory,
        }
    }
}

impl CPU {
    /// Whether `execute_instruction` can be called: the memory covers the
    /// address space, the descriptor is consistent, the stream holds the
    /// operand bytes, and the cycle counter has room for the base cost and
    /// both surcharges.
    pub fn can_execute(&self, instruction: &Instruction, bytes: &[u8]) -> (ready: bool)
        ensures
            ready == (self.wf() && instruction.is_consistent() && self@.can_fetch(
                bytes@,
                instruction.address_mode.operand_length(),
            ) && self.cycles + instruction.cycle_increase + 2 <= u32::MAX),
            ready ==> self@.execute(*instruction, bytes@).cycles <= u32::MAX,
    {
        let length = instruction.address_mode.operand_bytes();
        let first = self.registers.pc as usize;
        let second = self.registers.pc.wrapping_add(1) as usize;
        let ready = self.memory.len() >= MEMORY_SIZE && instruction.check_consistent() && (length
            < 1 || first < bytes.len()) && (length < 2 || second < bytes.len())
            && instruction.cycle_increase <= u32::MAX - 2 && self.cycles <= u32::MAX - 2
            - instruction.cycle_increase;
        proof {
            if ready {
                self@.lemma_execute_counts(*instruction, bytes@);
            }
        }
        ready
    }

    /// Carries out an instruction's operation and commits its result, for an
    /// operand that was resolved to `address`, where `value` is stored.
    pub fn handle_instruction(&mut self, instruction: &Instruction, address: u16, value: u8)
        requires
            old(self).wf(),
            instruction.result_handler != ResultHandler::Discard ==> instruction.operation.returns_byte()
                && instruction.value_or_address == ValueOrAddress::Value,
            old(self)@.handle(*instruction, address, value).cycles <= u32::MAX,
        ensures
            final(self).wf(),
            final(self)@ == old(self)@.handle(*instruction, address, value),
    {
        proof {
            old(self)@.lemma_returns_byte(
                instruction.operation,
                InstructionParameter::Byte(value),
            );
            old(self)@.lemma_returns_byte(
                instruction.operation,
                InstructionParameter::Word(address),
            );
        }
        match instruction.value_or_address {
            ValueOrAddress::Value => {
                let result = self.operate(instruction.operation, InstructionParameter::Byte(value));
                self.commit(instruction.result_handler, result, Some(address));
            },
            ValueOrAddress::Address => {
                let result = self.operate(
                    instruction.operation,
                    InstructionParameter::Word(address),
                );
                self.commit(instruction.result_handler, result, Some(address));
            },
        }
    }

    /// Executes one instruction. The opcode has been taken from the stream
    /// already: the program counter is at the operand bytes. They are taken
    /// as the addressing mode asks, the operation is carried out, its result
    /// committed, and the cycle counter advanced by the instruction's base
    /// cost and by what page crossings and taken branches add.
    pub fn execute_instruction(&mut self, instruction: &Instruction, bytes: &[u8])
        requires
            old(self).wf(),
            instruction.is_consistent(),
            old(self)@.can_fetch(bytes@, instruction.address_mode.operand_length()),
            old(self)@.execute(*instruction, bytes@).cycles <= u32::MAX,
        ensures
            final(self).wf(),
            final(self)@ == old(self)@.execute(*instruction, bytes@),
    {
        let operand = self.resolve_operand(instruction.address_mode, bytes);
        let before = self.registers.pc;
        proof {
            let parameter = operand.parameter(instruction.value_or_address);
            self@.lemma_returns_byte(instruction.operation, parameter);
        }
        match (operand.address, operand.value) {
            (Some(address), Some(value)) => {
                self.handle_instruction(instruction, address, value);
            },
            (_, Some(value)) => {
                let result = self.operate(instruction.operation, InstructionParameter::Byte(value));
                self.commit(instruction.result_handler, result, None);
            },
            _ => {
                let result = self.operate(instruction.operation, InstructionParameter::Nothing);
                self.commit(instruction.result_handler, result, None);
            },
        }
        let crossed = match instruction.address_mode {
            AddressingMode::Relative => page_crossed(before, self.registers.pc),
            _ => operand.page_crossed,
        };
        if instruction.cycle_increases_on_page_cross && crossed {
            self.cycles += instruction.cycle_increase + 1;
        } else {
            self.cycles += instruction.cycle_increase;
        }
    }
}

} // verus!
