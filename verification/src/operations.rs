//! The operations, one function for each mnemonic.
//!
//! Each takes the operand resolved for it and changes the processor as
//! [`crate::machine::Machine::operate`] prescribes. Some return a byte for the instruction's
//! result handler to commit. An operation handed an operand of a kind it has
//! no use for does nothing.

use vstd::prelude::*;
use crate::bitwise::{
    get_bit_at_position, get_msb, is_highest_bit_set, lemma_byte_ends, lemma_byte_rotations,
    lemma_word_bits, merge_bytes_into_word,
};
use crate::cpu::CPU;
use crate::instructions::{InstructionParameter, Operation};

verus! {

/// Whether bit 7 of a 16-bit result differs from bit 7 of both byte-sized
/// operands, tested with exclusive or.
proof fn lemma_sign_clash(acc: u16, value: u16, result: u16)
    by (bit_vector)
    requires
        acc < 256,
        value < 256,
    ensures
        ((((acc ^ result) & (value ^ result)) & 0x80) != 0) == (((acc >= 128) != (result % 256
            >= 128)) && ((value >= 128) != (result % 256 >= 128))),
{
}

impl CPU {
    /// Adds `parameter`, a byte read as a signed offset, to the program
    /// counter and counts one cycle, where `taken` holds.
    fn branch_on(&mut self, taken: bool, parameter: InstructionParameter) -> (result: Option<u8>)
        requires
            old(self)@.branch(taken, parameter).0.cycles <= u32::MAX,
        ensures
            (final(self)@, result) == old(self)@.branch(taken, parameter),
    {
        match parameter {
            InstructionParameter::Byte(offset) => {
                if taken {
                    let new_pc = if offset >= 128 {
                        self.registers.pc.wrapping_sub(256 - offset as u16)
                    } else {
                        self.registers.pc.wrapping_add(offset as u16)
                    };
                    self.registers.pc = new_pc;
                    self.cycles += 1;
                }

                None
            },
            _ => None,
        }
    }

    /// ADC: adds the operand and the carry to the accumulator. Returns the sum
    /// modulo 256; carry says that it went above 255. The overflow flag is
    /// left alone.
    pub fn op_adc(&mut self, parameter: InstructionParameter) -> (result: Option<u8>)
        ensures
            (final(self)@, result) == old(self)@.adc(parameter),
    {
        match parameter {
            InstructionParameter::Byte(value) => {
                let mut sum: u16 = self.registers.acc as u16 + value as u16;
                if self.flags.carry {
                    sum += 1
                }
                proof {
                    lemma_word_bits(sum, 0);
                }
                let result = (sum & 0xFF) as u8;
                self.flags.carry = sum > 0xFF;
                self.flags.zero = result == 0;
                self.flags.negative = is_highest_bit_set(result);

                Some(result)
            },
            _ => None,
        }
    }

    /// AND: returns the bitwise and of accumulator and operand.
    pub fn op_and(&mut self, parameter: InstructionParameter) -> (result: Option<u8>)
        ensures
            (final(self)@, result) == old(self)@.and(parameter),
    {
        match parameter {
            InstructionParameter::Byte(value) => {
                let and = self.registers.acc & value;
                self.flags.zero = and == 0;
                self.flags.negative = is_highest_bit_set(and);

                Some(and)
            },
            _ => None,
        }
    }

    /// ASL: returns the operand shifted left by one bit; carry takes the bit
    /// shifted out.
    pub fn op_asl(&mut self, parameter: InstructionParameter) -> (result: Option<u8>)
        ensures
            (final(self)@, result) == old(self)@.asl(parameter),
    {
        match parameter {
            InstructionParameter::Byte(value) => {
                proof {
                    lemma_byte_ends(value);
                    lemma_byte_rotations(value);
                }
                let result = value << 1;
                self.flags.carry = value & 0x80 != 0;
                self.flags.zero = result == 0;
                self.flags.negative = is_highest_bit_set(result);

                Some(result)
            },
            _ => None,
        }
    }

    /// BCC: where carry is clear, adds the operand as a signed offset to the
    /// program counter and counts one cycle.
    pub fn op_bcc(&mut self, parameter: InstructionParameter) -> (result: Option<u8>)
        requires
            old(self)@.bcc(parameter).0.cycles <= u32::MAX,
        ensures
            (final(self)@, result) == old(self)@.bcc(parameter),
    {
        self.branch_on(!self.flags.carry, parameter)
    }

    /// BCS: where carry is set, adds the operand as a signed offset to the
    /// program counter and counts one cycle.
    pub fn op_bcs(&mut self, parameter: InstructionParameter) -> (result: Option<u8>)
        requires
            old(self)@.bcs(parameter).0.cycles <= u32::MAX,
        ensures
            (final(self)@, result) == old(self)@.bcs(parameter),
    {
        self.branch_on(self.flags.carry, parameter)
    }

    /// BEQ: where zero is set, adds the operand as a signed offset to the
    /// program counter and counts one cycle.
    pub fn op_beq(&mut self, parameter: InstructionParameter) -> (result: Option<u8>)
        requires
            old(self)@.beq(parameter).0.cycles <= u32::MAX,
        ensures
            (final(self)@, result) == old(self)@.beq(parameter),
    {
        self.branch_on(self.flags.zero, parameter)
    }

    /// BIT: tests the operand against the accumulator. Zero says that they
    /// share no bit; negative and overflow take the operand's bits 7 and 6.
    pub fn op_bit(&mut self, parameter: InstructionParameter) -> (result: Option<u8>)
        ensures
            (final(self)@, result) == old(self)@.bit(parameter),
    {
        match parameter {
            InstructionParameter::Byte(value) => {
                let result = self.registers.acc & value;

                self.flags.negative = get_msb(value) != 0;
                self.flags.overflow = get_bit_at_position(value, 6) != 0;
                self.flags.zero = result == 0;

                None
            },
            _ => None,
        }
    }

    /// BMI: where negative is set, adds the operand as a signed offset to the
    /// program counter and counts one cycle.
    pub fn op_bmi(&mut self, parameter: InstructionParameter) -> (result: Option<u8>)
        requires
            old(self)@.bmi(parameter).0.cycles <= u32::MAX,
        ensures
            (final(self)@, result) == old(self)@.bmi(parameter),
    {
        self.branch_on(self.flags.negative, parameter)
    }

    /// BNE: where zero is clear, adds the operand as a signed offset to the
    /// program counter and counts one cycle.
    pub fn op_bne(&mut self, parameter: InstructionParameter) -> (result: Option<u8>)
        requires
            old(self)@.bne(parameter).0.cycles <= u32::MAX,
        ensures
            (final(self)@, result) == old(self)@.bne(parameter),
    {
        self.branch_on(!self.flags.zero, parameter)
    }

    /// BPL: where negative is clear, adds the operand as a signed offset to the
    /// program counter and counts one cycle.
    pub fn op_bpl(&mut self, parameter: InstructionParameter) -> (result: Option<u8>)
        requires
            old(self)@.bpl(parameter).0.cycles <= u32::MAX,
        ensures
            (final(self)@, result) == old(self)@.bpl(parameter),
    {
        self.branch_on(!self.flags.negative, parameter)
    }

    /// BRK: pushes the program counter plus 2 and the packed flags, sets the
    /// break status byte and the interrupt flag, and loads the program counter
    /// from the interrupt vector. The pushed flags are those from before.
    pub fn op_brk(&mut self, parameter: InstructionParameter) -> (result: Option<u8>)
        requires
            old(self).wf(),
        ensures
            (final(self)@, result) == old(self)@.brk(parameter),
    {
        match parameter {
            InstructionParameter::Nothing => {
                self.push_word_to_stack(self.registers.pc.wrapping_add(2));
                self.registers.sr = 1;
                self.push_byte_to_stack(self.flags.to_byte());
                self.flags.interrupt = true;
                self.registers.pc = merge_bytes_into_word(self.memory[0xFFFF], self.memory[0xFFFE]);

                None
            },
            _ => None,
        }
    }

    /// BVC: where overflow is clear, adds the operand as a signed offset to the
    /// program counter and counts one cycle.
    pub fn op_bvc(&mut self, parameter: InstructionParameter) -> (result: Option<u8>)
        requires
            old(self)@.bvc(parameter).0.cycles <= u32::MAX,
        ensures
            (final(self)@, result) == old(self)@.bvc(parameter),
    {
        self.branch_on(!self.flags.overflow, parameter)
    }

    /// BVS: where overflow is set, adds the operand as a signed offset to the
    /// program counter and counts one cycle.
    pub fn op_bvs(&mut self, parameter: InstructionParameter) -> (result: Option<u8>)
        requires
            old(self)@.bvs(parameter).0.cycles <= u32::MAX,
        ensures
            (final(self)@, result) == old(self)@.bvs(parameter),
    {
        self.branch_on(self.flags.overflow, parameter)
    }

    /// CLC: clears the carry flag.
    pub fn op_clc(&mut self, parameter: InstructionParameter) -> (result: Option<u8>)
        ensures
            (final(self)@, result) == old(self)@.clc(parameter),
    {
        match parameter {
            InstructionParameter::Nothing => {
                self.flags.carry = false;

                None
            },
            _ => None,
        }
    }

    /// CLD: clears the decimal flag.
    pub fn op_cld(&mut self, parameter: InstructionParameter) -> (result: Option<u8>)
        ensures
            (final(self)@, result) == old(self)@.cld(parameter),
    {
        match parameter {
            InstructionParameter::Nothing => {
                self.flags.decimal = false;

                None
            },
            _ => None,
        }
    }

    /// CLI: clears the interrupt flag.
    pub fn op_cli(&mut self, parameter: InstructionParameter) -> (result: Option<u8>)
        ensures
            (final(self)@, result) == old(self)@.cli(parameter),
    {
        match parameter {
            InstructionParameter::Nothing => {
                self.flags.interrupt = false;

                None
            },
            _ => None,
        }
    }

    /// CLV: clears the overflow flag.
    pub fn op_clv(&mut self, parameter: InstructionParameter) -> (result: Option<u8>)
        ensures
            (final(self)@, result) == old(self)@.clv(parameter),
    {
        match parameter {
            InstructionParameter::Nothing => {
                self.flags.overflow = false;

                None
            },
            _ => None,
        }
    }

    /// CMP: compares the accumulator with the operand. Zero says that they are
    /// equal, carry that the accumulator is not the smaller one; negative is bit 7
    /// of their difference.
    pub fn op_cmp(&mut self, parameter: InstructionParameter) -> (result: Option<u8>)
        ensures
            (final(self)@, result) == old(self)@.cmp(parameter),
    {
        match parameter {
            InstructionParameter::Byte(value) => {
                let result = self.registers.acc.wrapping_sub(value);
                self.flags.zero = self.registers.acc == value;
                self.flags.negative = get_msb(result) != 0;
                self.flags.carry = self.registers.acc >= value;

                None
            },
            _ => None,
        }
    }

    /// CPX: compares X with the operand. Zero says that they are
    /// equal, carry that X is not the smaller one; negative is bit 7
    /// of their difference.
    pub fn op_cpx(&mut self, parameter: InstructionParameter) -> (result: Option<u8>)
        ensures
            (final(self)@, result) == old(self)@.cpx(parameter),
    {
        match parameter {
            InstructionParameter::Byte(value) => {
                let result = self.registers.xr.wrapping_sub(value);
                self.flags.zero = self.registers.xr == value;
                self.flags.negative = get_msb(result) != 0;
                self.flags.carry = self.registers.xr >= value;

                None
            },
            _ => None,
        }
    }

    /// CPY: compares Y with the operand. Zero says that they are
    /// equal, carry that Y is not the smaller one; negative is bit 7
    /// of their difference.
    pub fn op_cpy(&mut self, parameter: InstructionParameter) -> (result: Option<u8>)
        ensures
            (final(self)@, result) == old(self)@.cpy(parameter),
    {
        match parameter {
            InstructionParameter::Byte(value) => {
                let result = self.registers.yr.wrapping_sub(value);
                self.flags.zero = self.registers.yr == value;
                self.flags.negative = get_msb(result) != 0;
                self.flags.carry = self.registers.yr >= value;

                None
            },
            _ => None,
        }
    }

    /// DEC: returns the operand less one, wrapping from 0 to 255.
    pub fn op_dec(&mut self, parameter: InstructionParameter) -> (result: Option<u8>)
        ensures
            (final(self)@, result) == old(self)@.dec(parameter),
    {
        match parameter {
            InstructionParameter::Byte(value) => {
                let result = value.wrapping_sub(1);
                self.flags.zero = result == 0;
                self.flags.negative = get_msb(result) != 0;

                Some(result)
            },
            _ => None,
        }
    }

    /// DEX: takes one from X, wrapping from 0 to 255.
    pub fn op_dex(&mut self, parameter: InstructionParameter) -> (result: Option<u8>)
        ensures
            (final(self)@, result) == old(self)@.dex(parameter),
    {
        match parameter {
            InstructionParameter::Nothing => {
                let result = self.registers.xr.wrapping_sub(1);
                self.flags.zero = result == 0;
                self.flags.negative = get_msb(result) != 0;
                self.registers.xr = result;

                None
            },
            _ => None,
        }
    }

    /// DEY: takes one from Y, wrapping from 0 to 255.
    pub fn op_dey(&mut self, parameter: InstructionParameter) -> (result: Option<u8>)
        ensures
            (final(self)@, result) == old(self)@.dey(parameter),
    {
        match parameter {
            InstructionParameter::Nothing => {
                let result = self.registers.yr.wrapping_sub(1);
                self.flags.zero = result == 0;
                self.flags.negative = get_msb(result) != 0;
                self.registers.yr = result;

                None
            },
            _ => None,
        }
    }

    /// EOR: replaces the accumulator by its bitwise exclusive or with the
    /// operand.
    pub fn op_eor(&mut self, parameter: InstructionParameter) -> (result: Option<u8>)
        ensures
            (final(self)@, result) == old(self)@.eor(parameter),
    {
        match parameter {
            InstructionParameter::Byte(value) => {
                self.registers.acc ^= value;
                self.flags.zero = self.registers.acc == 0;
                self.flags.negative = get_msb(self.registers.acc) != 0;

                None
            },
            _ => None,
        }
    }

    /// INC: returns the operand plus one, wrapping from 255 to 0.
    pub fn op_inc(&mut self, parameter: InstructionParameter) -> (result: Option<u8>)
        ensures
            (final(self)@, result) == old(self)@.inc(parameter),
    {
        match parameter {
            InstructionParameter::Byte(value) => {
                let result = value.wrapping_add(1);
                self.flags.zero = result == 0;
                self.flags.negative = get_msb(result) != 0;

                Some(result)
            },
            _ => None,
        }
    }

    /// INX: adds one to X, wrapping from 255 to 0.
    pub fn op_inx(&mut self, parameter: InstructionParameter) -> (result: Option<u8>)
        ensures
            (final(self)@, result) == old(self)@.inx(parameter),
    {
        match parameter {
            InstructionParameter::Nothing => {
                let result = self.registers.xr.wrapping_add(1);
                self.flags.zero = result == 0;
                self.flags.negative = get_msb(result) != 0;
                self.registers.xr = result;

                None
            },
            _ => None,
        }
    }

    /// INY: adds one to Y, wrapping from 255 to 0.
    pub fn op_iny(&mut self, parameter: InstructionParameter) -> (result: Option<u8>)
        ensures
            (final(self)@, result) == old(self)@.iny(parameter),
    {
        match parameter {
            InstructionParameter::Nothing => {
                let result = self.registers.yr.wrapping_add(1);
                self.flags.zero = result == 0;
                self.flags.negative = get_msb(result) != 0;
                self.registers.yr = result;

                None
            },
            _ => None,
        }
    }

    /// JMP: sets the program counter to the operand.
    pub fn op_jmp(&mut self, parameter: InstructionParameter) -> (result: Option<u8>)
        ensures
            (final(self)@, result) == old(self)@.jmp(parameter),
    {
        match parameter {
            InstructionParameter::Word(address) => {
                self.registers.pc = address;

                None
            },
            _ => None,
        }
    }

    /// JSR: pushes the program counter less one, the position of the last byte
    /// of the instruction, and sets the program counter to the operand.
    pub fn op_jsr(&mut self, parameter: InstructionParameter) -> (result: Option<u8>)
        requires
            old(self).wf(),
        ensures
            (final(self)@, result) == old(self)@.jsr(parameter),
    {
        match parameter {
            InstructionParameter::Word(address) => {
                self.push_word_to_stack(self.registers.pc.wrapping_sub(1));
                self.registers.pc = address;

                None
            },
            _ => None,
        }
    }

    /// LDA: loads the operand into the accumulator.
    pub fn op_lda(&mut self, parameter: InstructionParameter) -> (result: Option<u8>)
        ensures
            (final(self)@, result) == old(self)@.lda(parameter),
    {
        match parameter {
            InstructionParameter::Byte(value) => {
                self.registers.acc = value;
                self.flags.zero = self.registers.acc == 0;
                self.flags.negative = get_msb(self.registers.acc) != 0;

                None
            },
            _ => None,
        }
    }

    /// LDX: loads the operand into X.
    pub fn op_ldx(&mut self, parameter: InstructionParameter) -> (result: Option<u8>)
        ensures
            (final(self)@, result) == old(self)@.ldx(parameter),
    {
        match parameter {
            InstructionParameter::Byte(value) => {
                self.registers.xr = value;
                self.flags.zero = self.registers.xr == 0;
                self.flags.negative = get_msb(self.registers.xr) != 0;

                None
            },
            _ => None,
        }
    }

    /// LDY: loads the operand into Y.
    pub fn op_ldy(&mut self, parameter: InstructionParameter) -> (result: Option<u8>)
        ensures
            (final(self)@, result) == old(self)@.ldy(parameter),
    {
        match parameter {
            InstructionParameter::Byte(value) => {
                self.registers.yr = value;
                self.flags.zero = self.registers.yr == 0;
                self.flags.negative = get_msb(self.registers.yr) != 0;

                None
            },
            _ => None,
        }
    }

    /// LSR: returns the operand shifted right by one bit; carry takes the bit
    /// shifted out, negative is cleared.
    pub fn op_lsr(&mut self, parameter: InstructionParameter) -> (result: Option<u8>)
        ensures
            (final(self)@, result) == old(self)@.lsr(parameter),
    {
        match parameter {
            InstructionParameter::Byte(value) => {
                proof {
                    lemma_byte_ends(value);
                }
                self.flags.carry = value & 1 != 0;

                let result = value >> 1;
                self.flags.negative = false;
                self.flags.zero = result == 0;

                Some(result)
            },
            _ => None,
        }
    }

    /// NOP: does nothing.
    pub fn op_nop(&mut self, parameter: InstructionParameter) -> (result: Option<u8>)
        ensures
            (final(self)@, result) == old(self)@.nop(parameter),
    {
        None
    }

    /// ORA: replaces the accumulator by its bitwise or with the operand.
    pub fn op_ora(&mut self, parameter: InstructionParameter) -> (result: Option<u8>)
        ensures
            (final(self)@, result) == old(self)@.ora(parameter),
    {
        match parameter {
            InstructionParameter::Byte(value) => {
                self.registers.acc |= value;
                self.flags.zero = self.registers.acc == 0;
                self.flags.negative = get_msb(self.registers.acc) != 0;

                None
            },
            _ => None,
        }
    }

    /// PHA: pushes the accumulator.
    pub fn op_pha(&mut self, parameter: InstructionParameter) -> (result: Option<u8>)
        requires
            old(self).wf(),
        ensures
            (final(self)@, result) == old(self)@.pha(parameter),
    {
        match parameter {
            InstructionParameter::Nothing => {
                self.push_byte_to_stack(self.registers.acc);

                None
            },
            _ => None,
        }
    }

    /// PHP: pushes the packed flags.
    pub fn op_php(&mut self, parameter: InstructionParameter) -> (result: Option<u8>)
        requires
            old(self).wf(),
        ensures
            (final(self)@, result) == old(self)@.php(parameter),
    {
        match parameter {
            InstructionParameter::Nothing => {
                self.push_byte_to_stack(self.flags.to_byte());

                None
            },
            _ => None,
        }
    }

    /// PLA: pops a byte into the accumulator.
    pub fn op_pla(&mut self, parameter: InstructionParameter) -> (result: Option<u8>)
        requires
            old(self).wf(),
        ensures
            (final(self)@, result) == old(self)@.pla(parameter),
    {
        match parameter {
            InstructionParameter::Nothing => {
                if let Some(result) = self.pop_byte_from_stack() {
                    self.registers.acc = result;
                    self.flags.zero = self.registers.acc == 0;
                    self.flags.negative = get_msb(self.registers.acc) != 0;
                }

                None
            },
            _ => None,
        }
    }

    /// PLP: pops a byte and loads the flags from it.
    pub fn op_plp(&mut self, parameter: InstructionParameter) -> (result: Option<u8>)
        requires
            old(self).wf(),
        ensures
            (final(self)@, result) == old(self)@.plp(parameter),
    {
        match parameter {
            InstructionParameter::Nothing => {
                if let Some(result) = self.pop_byte_from_stack() {
                    self.flags.load_from_byte(result);
                }

                None
            },
            _ => None,
        }
    }

    /// ROL: returns the operand rotated left by one bit; carry takes the
    /// operand's bit 7.
    pub fn op_rol(&mut self, parameter: InstructionParameter) -> (result: Option<u8>)
        ensures
            (final(self)@, result) == old(self)@.rol(parameter),
    {
        match parameter {
            InstructionParameter::Byte(value) => {
                proof {
                    lemma_byte_rotations(value);
                }
                self.flags.carry = get_msb(value) != 0;

                let result = (value << 1) | (value >> 7);
                self.flags.negative = get_msb(result) != 0;
                self.flags.zero = result == 0;

                Some(result)
            },
            _ => None,
        }
    }

    /// ROR: returns the operand rotated right by one bit; carry takes the
    /// operand's bit 0.
    pub fn op_ror(&mut self, parameter: InstructionParameter) -> (result: Option<u8>)
        ensures
            (final(self)@, result) == old(self)@.ror(parameter),
    {
        match parameter {
            InstructionParameter::Byte(value) => {
                proof {
                    lemma_byte_ends(value);
                    lemma_byte_rotations(value);
                }
                self.flags.carry = value & 1 != 0;

                let result = (value >> 1) | (value << 7);
                self.flags.negative = get_msb(result) != 0;
                self.flags.zero = result == 0;

                Some(result)
            },
            _ => None,
        }
    }

    /// RTI: pops the flags, then the program counter. Where the stack then
    /// holds no word, the program counter stays.
    pub fn op_rti(&mut self, parameter: InstructionParameter) -> (result: Option<u8>)
        requires
            old(self).wf(),
        ensures
            (final(self)@, result) == old(self)@.rti(parameter),
    {
        match parameter {
            InstructionParameter::Nothing => {
                if let Some(status) = self.pop_byte_from_stack() {
                    self.flags.load_from_byte(status);
                }

                if let Some(value) = self.pop_word_from_stack() {
                    self.registers.pc = value;
                }

                None
            },
            _ => None,
        }
    }

    /// RTS: pops a word and sets the program counter to the position after
    /// it. Where the stack holds no word, nothing changes.
    pub fn op_rts(&mut self, parameter: InstructionParameter) -> (result: Option<u8>)
        requires
            old(self).wf(),
        ensures
            (final(self)@, result) == old(self)@.rts(parameter),
    {
        match parameter {
            InstructionParameter::Nothing => {
                if let Some(value) = self.pop_word_from_stack() {
                    self.registers.pc = value;
                    self.registers.pc = self.registers.pc.wrapping_add(1);
                }

                None
            },
            _ => None,
        }
    }

    /// SBC: takes the operand from the accumulator, and one more where carry
    /// is clear. Carry says that nothing was borrowed; overflow that the
    /// result's bit 7 differs from both the accumulator's and the operand's.
    pub fn op_sbc(&mut self, parameter: InstructionParameter) -> (result: Option<u8>)
        ensures
            (final(self)@, result) == old(self)@.sbc(parameter),
    {
        match parameter {
            InstructionParameter::Byte(value) => {
                let acc = self.registers.acc as u16;
                let value = value as u16;
                let carry: u16 = if self.flags.carry {
                    1
                } else {
                    0
                };

                let result = acc.wrapping_sub(value).wrapping_sub(1 - carry);
                proof {
                    lemma_word_bits(result, 0);
                    lemma_sign_clash(acc, value, result);
                }
                let low = (result & 0xFF) as u8;

                self.flags.carry = acc >= value + (1 - carry);
                self.flags.zero = low == 0;
                self.flags.negative = get_msb(low) != 0;
                self.flags.overflow = (((acc ^ result) & (value ^ result)) & 0x80) != 0;

                self.registers.acc = low;

                None
            },
            _ => None,
        }
    }

    /// SEC: sets the carry flag.
    pub fn op_sec(&mut self, parameter: InstructionParameter) -> (result: Option<u8>)
        ensures
            (final(self)@, result) == old(self)@.sec(parameter),
    {
        match parameter {
            InstructionParameter::Nothing => {
                self.flags.carry = true;

                None
            },
            _ => None,
        }
    }

    /// SED: sets the decimal flag.
    pub fn op_sed(&mut self, parameter: InstructionParameter) -> (result: Option<u8>)
        ensures
            (final(self)@, result) == old(self)@.sed(parameter),
    {
        match parameter {
            InstructionParameter::Nothing => {
                self.flags.decimal = true;

                None
            },
            _ => None,
        }
    }

    /// SEI: sets the interrupt flag.
    pub fn op_sei(&mut self, parameter: InstructionParameter) -> (result: Option<u8>)
        ensures
            (final(self)@, result) == old(self)@.sei(parameter),
    {
        match parameter {
            InstructionParameter::Nothing => {
                self.flags.interrupt = true;

                None
            },
            _ => None,
        }
    }

    /// STA: moves the accumulator to the operand address: stores it there and
    /// leaves 0 in the accumulator.
    pub fn op_sta(&mut self, parameter: InstructionParameter) -> (result: Option<u8>)
        requires
            old(self).wf(),
        ensures
            (final(self)@, result) == old(self)@.sta(parameter),
    {
        match parameter {
            InstructionParameter::Word(address) => {
                self.memory[address as usize] = self.registers.acc;
                self.registers.acc = 0;

                None
            },
            _ => None,
        }
    }

    /// STX: moves X to the operand address: stores it there and
    /// leaves 0 in X.
    pub fn op_stx(&mut self, parameter: InstructionParameter) -> (result: Option<u8>)
        requires
            old(self).wf(),
        ensures
            (final(self)@, result) == old(self)@.stx(parameter),
    {
        match parameter {
            InstructionParameter::Word(address) => {
                self.memory[address as usize] = self.registers.xr;
                self.registers.xr = 0;

                None
            },
            _ => None,
        }
    }

    /// STY: moves Y to the operand address: stores it there and
    /// leaves 0 in Y.
    pub fn op_sty(&mut self, parameter: InstructionParameter) -> (result: Option<u8>)
        requires
            old(self).wf(),
        ensures
            (final(self)@, result) == old(self)@.sty(parameter),
    {
        match parameter {
            InstructionParameter::Word(address) => {
                self.memory[address as usize] = self.registers.yr;
                self.registers.yr = 0;

                None
            },
            _ => None,
        }
    }

    /// TAX: copies the accumulator to X.
    pub fn op_tax(&mut self, parameter: InstructionParameter) -> (result: Option<u8>)
        ensures
            (final(self)@, result) == old(self)@.tax(parameter),
    {
        match parameter {
            InstructionParameter::Nothing => {
                self.registers.xr = self.registers.acc;
                self.flags.negative = get_msb(self.registers.xr) != 0;
                self.flags.zero = self.registers.xr == 0;

                None
            },
            _ => None,
        }
    }

    /// TAY: copies the accumulator to Y.
    pub fn op_tay(&mut self, parameter: InstructionParameter) -> (result: Option<u8>)
        ensures
            (final(self)@, result) == old(self)@.tay(parameter),
    {
        match parameter {
            InstructionParameter::Nothing => {
                self.registers.yr = self.registers.acc;
                self.flags.negative = get_msb(self.registers.yr) != 0;
                self.flags.zero = self.registers.yr == 0;

                None
            },
            _ => None,
        }
    }

    /// TSX: copies the stack pointer to X.
    pub fn op_tsx(&mut self, parameter: InstructionParameter) -> (result: Option<u8>)
        ensures
            (final(self)@, result) == old(self)@.tsx(parameter),
    {
        match parameter {
            InstructionParameter::Nothing => {
                self.registers.xr = self.registers.sp;
                self.flags.negative = get_msb(self.registers.xr) != 0;
                self.flags.zero = self.registers.xr == 0;

                None
            },
            _ => None,
        }
    }

    /// TXA: copies X to the accumulator.
    pub fn op_txa(&mut self, parameter: InstructionParameter) -> (result: Option<u8>)
        ensures
            (final(self)@, result) == old(self)@.txa(parameter),
    {
        match parameter {
            InstructionParameter::Nothing => {
                self.registers.acc = self.registers.xr;
                self.flags.negative = get_msb(self.registers.acc) != 0;
                self.flags.zero = self.registers.acc == 0;

                None
            },
            _ => None,
        }
    }

    /// TXS: copies X to the stack pointer. No flag changes.
    pub fn op_txs(&mut self, parameter: InstructionParameter) -> (result: Option<u8>)
        ensures
            (final(self)@, result) == old(self)@.txs(parameter),
    {
        match parameter {
            InstructionParameter::Nothing => {
                self.registers.sp = self.registers.xr;

                None
            },
            _ => None,
        }
    }

    /// TYA: copies Y to the accumulator.
    pub fn op_tya(&mut self, parameter: InstructionParameter) -> (result: Option<u8>)
        ensures
            (final(self)@, result) == old(self)@.tya(parameter),
    {
        match parameter {
            InstructionParameter::Nothing => {
                self.registers.acc = self.registers.yr;
                self.flags.negative = get_msb(self.registers.acc) != 0;
                self.flags.zero = self.registers.acc == 0;

                None
            },
            _ => None,
        }
    }

    /// Carries out `operation` on `parameter`.
    pub fn operate(&mut self, operation: Operation, parameter: InstructionParameter) -> (result: Option<u8>)
        requires
            old(self).wf(),
            old(self)@.operate(operation, parameter).0.cycles <= u32::MAX,
        ensures
            final(self).wf(),
            (final(self)@, result) == old(self)@.operate(operation, parameter),
    {
        match operation {
            Operation::Adc => self.op_adc(parameter),
            Operation::And => self.op_and(parameter),
            Operation::Asl => self.op_asl(parameter),
            Operation::Bcc => self.op_bcc(parameter),
            Operation::Bcs => self.op_bcs(parameter),
            Operation::Beq => self.op_beq(parameter),
            Operation::Bit => self.op_bit(parameter),
            Operation::Bmi => self.op_bmi(parameter),
            Operation::Bne => self.op_bne(parameter),
            Operation::Bpl => self.op_bpl(parameter),
            Operation::Brk => self.op_brk(parameter),
            Operation::Bvc => self.op_bvc(parameter),
            Operation::Bvs => self.op_bvs(parameter),
            Operation::Clc => self.op_clc(parameter),
            Operation::Cld => self.op_cld(parameter),
            Operation::Cli => self.op_cli(parameter),
            Operation::Clv => self.op_clv(parameter),
            Operation::Cmp => self.op_cmp(parameter),
            Operation::Cpx => self.op_cpx(parameter),
            Operation::Cpy => self.op_cpy(parameter),
            Operation::Dec => self.op_dec(parameter),
            Operation::Dex => self.op_dex(parameter),
            Operation::Dey => self.op_dey(parameter),
            Operation::Eor => self.op_eor(parameter),
            Operation::Inc => self.op_inc(parameter),
            Operation::Inx => self.op_inx(parameter),
            Operation::Iny => self.op_iny(parameter),
            Operation::Jmp => self.op_jmp(parameter),
            Operation::Jsr => self.op_jsr(parameter),
            Operation::Lda => self.op_lda(parameter),
            Operation::Ldx => self.op_ldx(parameter),
            Operation::Ldy => self.op_ldy(parameter),
            Operation::Lsr => self.op_lsr(parameter),
            Operation::Nop => self.op_nop(parameter),
            Operation::Ora => self.op_ora(parameter),
            Operation::Pha => self.op_pha(parameter),
            Operation::Php => self.op_php(parameter),
            Operation::Pla => self.op_pla(parameter),
            Operation::Plp => self.op_plp(parameter),
            Operation::Rol => self.op_rol(parameter),
            Operation::Ror => self.op_ror(parameter),
            Operation::Rti => self.op_rti(parameter),
            Operation::Rts => self.op_rts(parameter),
            Operation::Sbc => self.op_sbc(parameter),
            Operation::Sec => self.op_sec(parameter),
            Operation::Sed => self.op_sed(parameter),
            Operation::Sei => self.op_sei(parameter),
            Operation::Sta => self.op_sta(parameter),
            Operation::Stx => self.op_stx(parameter),
            Operation::Sty => self.op_sty(parameter),
            Operation::Tax => self.op_tax(parameter),
            Operation::Tay => self.op_tay(parameter),
            Operation::Tsx => self.op_tsx(parameter),
            Operation::Txa => self.op_txa(parameter),
            Operation::Txs => self.op_txs(parameter),
            Operation::Tya => self.op_tya(parameter),
        }
    }
}

} // verus!
