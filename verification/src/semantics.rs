//! What each operation does to the machine.
//!
//! Every operation takes the operand it was handed and gives the state that
//! follows and, for some, a byte to be committed by the instruction's result
//! handler. Handed an operand of a kind it has no use for, an operation does
//! nothing and returns nothing.

use vstd::prelude::*;
use crate::bitwise::{bit_is_set, high_byte, low_byte, signed, wrap_byte, wrap_word};
use crate::cpu::Registers;
use crate::flags::Flags;
use crate::instructions::{InstructionParameter, Operation};
use crate::machine::Machine;

verus! {

impl Machine {
    /// A branch: handed a byte, and with `taken` true, the byte is added as
    /// a signed offset to the program counter, and one cycle is counted.
    pub open spec fn branch(self, taken: bool, parameter: InstructionParameter) -> (Machine, Option<u8>) {
        match parameter {
            InstructionParameter::Byte(offset) if taken => (
                self.with_pc(wrap_word(self.registers.pc + signed(offset))).charged(1),
                None,
            ),
            _ => (self, None),
        }
    }

    /// A comparison of `register` with a byte: zero says that they are
    /// equal, carry that the register is not below the byte, negative is bit
    /// 7 of their difference modulo 256.
    pub open spec fn compare(self, register: u8, parameter: InstructionParameter) -> (Machine, Option<u8>) {
        match parameter {
            InstructionParameter::Byte(value) => (
                self.with_flags(
                    Flags {
                        zero: register == value,
                        carry: register >= value,
                        negative: wrap_byte(register - value) >= 128,
                        ..self.flags
                    },
                ),
                None,
            ),
            _ => (self, None),
        }
    }

    /// An operation without operand: `next` where it was handed none.
    pub open spec fn implied(self, parameter: InstructionParameter, next: Machine) -> (Machine, Option<u8>) {
        match parameter {
            InstructionParameter::Nothing => (next, None),
            _ => (self, None),
        }
    }

    /// An operation on a byte that returns a byte: the flags that follow,
    /// and the byte.
    pub open spec fn computed(self, flags: Flags, result: u8) -> (Machine, Option<u8>) {
        (self.with_flags(flags), Some(result))
    }

    /// ADC: the accumulator, the operand and the carry are added; carry says
    /// that the sum is above 255, zero and negative describe the sum modulo
    /// 256, which is returned. The overflow flag is left alone.
    pub open spec fn adc(self, parameter: InstructionParameter) -> (Machine, Option<u8>) {
        match parameter {
            InstructionParameter::Byte(value) => {
                let sum = self.registers.acc + value + if self.flags.carry { 1int } else { 0int };
                self.computed(
                    Flags {
                        carry: sum > 255,
                        zero: wrap_byte(sum) == 0,
                        negative: wrap_byte(sum) >= 128,
                        ..self.flags
                    },
                    wrap_byte(sum),
                )
            },
            _ => (self, None),
        }
    }

    /// AND: the bitwise and of accumulator and operand is returned; zero and
    /// negative describe it.
    pub open spec fn and(self, parameter: InstructionParameter) -> (Machine, Option<u8>) {
        match parameter {
            InstructionParameter::Byte(value) => {
                let result = self.registers.acc & value;
                (self.with_zero_negative(result), Some(result))
            },
            _ => (self, None),
        }
    }

    /// ASL: the operand doubled modulo 256 is returned; carry is the
    /// operand's bit 7, zero and negative describe the result.
    pub open spec fn asl(self, parameter: InstructionParameter) -> (Machine, Option<u8>) {
        match parameter {
            InstructionParameter::Byte(value) => {
                let result = wrap_byte(2 * value);
                self.computed(
                    Flags {
                        carry: value >= 128,
                        zero: result == 0,
                        negative: result >= 128,
                        ..self.flags
                    },
                    result,
                )
            },
            _ => (self, None),
        }
    }

    /// BCC: branches where carry is clear.
    pub open spec fn bcc(self, parameter: InstructionParameter) -> (Machine, Option<u8>) {
        self.branch(!self.flags.carry, parameter)
    }

    /// BCS: branches where carry is set.
    pub open spec fn bcs(self, parameter: InstructionParameter) -> (Machine, Option<u8>) {
        self.branch(self.flags.carry, parameter)
    }

    /// BEQ: branches where zero is set.
    pub open spec fn beq(self, parameter: InstructionParameter) -> (Machine, Option<u8>) {
        self.branch(self.flags.zero, parameter)
    }

    /// BIT: zero says that accumulator and operand share no bit; negative
    /// and overflow are the operand's bits 7 and 6.
    pub open spec fn bit(self, parameter: InstructionParameter) -> (Machine, Option<u8>) {
        match parameter {
            InstructionParameter::Byte(value) => (
                self.with_flags(
                    Flags {
                        zero: self.registers.acc & value == 0,
                        negative: value >= 128,
                        overflow: bit_is_set(value, 6),
                        ..self.flags
                    },
                ),
                None,
            ),
            _ => (self, None),
        }
    }

    /// BMI: branches where negative is set.
    pub open spec fn bmi(self, parameter: InstructionParameter) -> (Machine, Option<u8>) {
        self.branch(self.flags.negative, parameter)
    }

    /// BNE: branches where zero is clear.
    pub open spec fn bne(self, parameter: InstructionParameter) -> (Machine, Option<u8>) {
        self.branch(!self.flags.zero, parameter)
    }

    /// BPL: branches where negative is clear.
    pub open spec fn bpl(self, parameter: InstructionParameter) -> (Machine, Option<u8>) {
        self.branch(!self.flags.negative, parameter)
    }

    /// The state after BRK: the program counter plus 2 is pushed, the break
    /// status byte becomes 1, the packed flags are pushed, then the
    /// interrupt flag is set and the program counter is loaded from the
    /// interrupt vector.
    pub open spec fn interrupted(self) -> Machine {
        let pushed = self.push_word(wrap_word(self.registers.pc + 2)).with_sr(1).push_byte(
            self.flags.packed(),
        );
        pushed.with_flags(Flags { interrupt: true, ..self.flags }).with_pc(
            pushed.interrupt_vector(),
        )
    }

    /// BRK: the software interrupt.
    pub open spec fn brk(self, parameter: InstructionParameter) -> (Machine, Option<u8>) {
        self.implied(parameter, self.interrupted())
    }

    /// BVC: branches where overflow is clear.
    pub open spec fn bvc(self, parameter: InstructionParameter) -> (Machine, Option<u8>) {
        self.branch(!self.flags.overflow, parameter)
    }

    /// BVS: branches where overflow is set.
    pub open spec fn bvs(self, parameter: InstructionParameter) -> (Machine, Option<u8>) {
        self.branch(self.flags.overflow, parameter)
    }

    /// CLC: clears carry.
    pub open spec fn clc(self, parameter: InstructionParameter) -> (Machine, Option<u8>) {
        self.implied(parameter, self.with_flags(Flags { carry: false, ..self.flags }))
    }

    /// CLD: clears decimal.
    pub open spec fn cld(self, parameter: InstructionParameter) -> (Machine, Option<u8>) {
        self.implied(parameter, self.with_flags(Flags { decimal: false, ..self.flags }))
    }

    /// CLI: clears interrupt disable.
    pub open spec fn cli(self, parameter: InstructionParameter) -> (Machine, Option<u8>) {
        self.implied(parameter, self.with_flags(Flags { interrupt: false, ..self.flags }))
    }

    /// CLV: clears overflow.
    pub open spec fn clv(self, parameter: InstructionParameter) -> (Machine, Option<u8>) {
        self.implied(parameter, self.with_flags(Flags { overflow: false, ..self.flags }))
    }

    /// CMP: compares the accumulator with the operand.
    pub open spec fn cmp(self, parameter: InstructionParameter) -> (Machine, Option<u8>) {
        self.compare(self.registers.acc, parameter)
    }

    /// CPX: compares X with the operand.
    pub open spec fn cpx(self, parameter: InstructionParameter) -> (Machine, Option<u8>) {
        self.compare(self.registers.xr, parameter)
    }

    /// CPY: compares Y with the operand.
    pub open spec fn cpy(self, parameter: InstructionParameter) -> (Machine, Option<u8>) {
        self.compare(self.registers.yr, parameter)
    }

    /// DEC: the operand less one, modulo 256, is returned; zero and negative
    /// describe it.
    pub open spec fn dec(self, parameter: InstructionParameter) -> (Machine, Option<u8>) {
        match parameter {
            InstructionParameter::Byte(value) => {
                let result = wrap_byte(value - 1);
                (self.with_zero_negative(result), Some(result))
            },
            _ => (self, None),
        }
    }

    /// DEX: X becomes X less one, modulo 256; zero and negative describe it.
    pub open spec fn dex(self, parameter: InstructionParameter) -> (Machine, Option<u8>) {
        let result = wrap_byte(self.registers.xr - 1);
        self.implied(parameter, self.with_xr(result).with_zero_negative(result))
    }

    /// DEY: Y becomes Y less one, modulo 256; zero and negative describe it.
    pub open spec fn dey(self, parameter: InstructionParameter) -> (Machine, Option<u8>) {
        let result = wrap_byte(self.registers.yr - 1);
        self.implied(parameter, self.with_yr(result).with_zero_negative(result))
    }

    /// EOR: the accumulator becomes its bitwise exclusive or with the
    /// operand; zero and negative describe it.
    pub open spec fn eor(self, parameter: InstructionParameter) -> (Machine, Option<u8>) {
        match parameter {
            InstructionParameter::Byte(value) => {
                let result = self.registers.acc ^ value;
                (self.with_acc(result).with_zero_negative(result), None)
            },
            _ => (self, None),
        }
    }

    /// INC: the operand plus one, modulo 256, is returned; zero and negative
    /// describe it.
    pub open spec fn inc(self, parameter: InstructionParameter) -> (Machine, Option<u8>) {
        match parameter {
            InstructionParameter::Byte(value) => {
                let result = wrap_byte(value + 1);
                (self.with_zero_negative(result), Some(result))
            },
            _ => (self, None),
        }
    }

    /// INX: X becomes X plus one, modulo 256; zero and negative describe it.
    pub open spec fn inx(self, parameter: InstructionParameter) -> (Machine, Option<u8>) {
        let result = wrap_byte(self.registers.xr + 1);
        self.implied(parameter, self.with_xr(result).with_zero_negative(result))
    }

    /// INY: Y becomes Y plus one, modulo 256; zero and negative describe it.
    pub open spec fn iny(self, parameter: InstructionParameter) -> (Machine, Option<u8>) {
        let result = wrap_byte(self.registers.yr + 1);
        self.implied(parameter, self.with_yr(result).with_zero_negative(result))
    }

    /// JMP: the program counter becomes the address handed over.
    pub open spec fn jmp(self, parameter: InstructionParameter) -> (Machine, Option<u8>) {
        match parameter {
            InstructionParameter::Word(address) => (self.with_pc(address), None),
            _ => (self, None),
        }
    }

    /// JSR: the program counter less one is pushed, then the program counter
    /// becomes the address handed over.
    pub open spec fn jsr(self, parameter: InstructionParameter) -> (Machine, Option<u8>) {
        match parameter {
            InstructionParameter::Word(address) => (
                self.push_word(wrap_word(self.registers.pc - 1)).with_pc(address),
                None,
            ),
            _ => (self, None),
        }
    }

    /// LDA: the accumulator becomes the operand; zero and negative describe
    /// it.
    pub open spec fn lda(self, parameter: InstructionParameter) -> (Machine, Option<u8>) {
        match parameter {
            InstructionParameter::Byte(value) => (
                self.with_acc(value).with_zero_negative(value),
                None,
            ),
            _ => (self, None),
        }
    }

    /// LDX: X becomes the operand; zero and negative describe it.
    pub open spec fn ldx(self, parameter: InstructionParameter) -> (Machine, Option<u8>) {
        match parameter {
            InstructionParameter::Byte(value) => (
                self.with_xr(value).with_zero_negative(value),
                None,
            ),
            _ => (self, None),
        }
    }

    /// LDY: Y becomes the operand; zero and negative describe it.
    pub open spec fn ldy(self, parameter: InstructionParameter) -> (Machine, Option<u8>) {
        match parameter {
            InstructionParameter::Byte(value) => (
                self.with_yr(value).with_zero_negative(value),
                None,
            ),
            _ => (self, None),
        }
    }

    /// LSR: the operand halved is returned; carry is the operand's bit 0,
    /// negative is clear, zero describes the result.
    pub open spec fn lsr(self, parameter: InstructionParameter) -> (Machine, Option<u8>) {
        match parameter {
            InstructionParameter::Byte(value) => {
                let result = value / 2;
                self.computed(
                    Flags {
                        carry: value % 2 == 1,
                        zero: result == 0,
                        negative: false,
                        ..self.flags
                    },
                    result,
                )
            },
            _ => (self, None),
        }
    }

    /// NOP: nothing.
    pub open spec fn nop(self, parameter: InstructionParameter) -> (Machine, Option<u8>) {
        (self, None)
    }

    /// ORA: the accumulator becomes its bitwise or with the operand; zero
    /// and negative describe it.
    pub open spec fn ora(self, parameter: InstructionParameter) -> (Machine, Option<u8>) {
        match parameter {
            InstructionParameter::Byte(value) => {
                let result = self.registers.acc | value;
                (self.with_acc(result).with_zero_negative(result), None)
            },
            _ => (self, None),
        }
    }

    /// PHA: pushes the accumulator.
    pub open spec fn pha(self, parameter: InstructionParameter) -> (Machine, Option<u8>) {
        self.implied(parameter, self.push_byte(self.registers.acc))
    }

    /// PHP: pushes the packed flags.
    pub open spec fn php(self, parameter: InstructionParameter) -> (Machine, Option<u8>) {
        self.implied(parameter, self.push_byte(self.flags.packed()))
    }

    /// PLA: pops a byte into the accumulator; zero and negative describe it.
    pub open spec fn pla(self, parameter: InstructionParameter) -> (Machine, Option<u8>) {
        let (popped, value) = self.pop_byte();
        self.implied(parameter, popped.with_acc(value).with_zero_negative(value))
    }

    /// PLP: pops a byte and unpacks it into the flags.
    pub open spec fn plp(self, parameter: InstructionParameter) -> (Machine, Option<u8>) {
        let (popped, value) = self.pop_byte();
        self.implied(parameter, popped.with_flags(Flags::unpacked(value)))
    }

    /// ROL: the operand rotated left by one bit within the byte is
    /// returned: bit 7 comes back in as bit 0. Carry is the operand's bit 7,
    /// zero and negative describe the result.
    pub open spec fn rol(self, parameter: InstructionParameter) -> (Machine, Option<u8>) {
        match parameter {
            InstructionParameter::Byte(value) => {
                let result = wrap_byte((value % 128) * 2 + value / 128);
                self.computed(
                    Flags {
                        carry: value >= 128,
                        zero: result == 0,
                        negative: result >= 128,
                        ..self.flags
                    },
                    result,
                )
            },
            _ => (self, None),
        }
    }

    /// ROR: the operand rotated right by one bit within the byte is
    /// returned: bit 0 comes back in as bit 7. Carry is the operand's bit 0,
    /// zero and negative describe the result.
    pub open spec fn ror(self, parameter: InstructionParameter) -> (Machine, Option<u8>) {
        match parameter {
            InstructionParameter::Byte(value) => {
                let result = wrap_byte(value / 2 + (value % 2) * 128);
                self.computed(
                    Flags {
                        carry: value % 2 == 1,
                        zero: result == 0,
                        negative: result >= 128,
                        ..self.flags
                    },
                    result,
                )
            },
            _ => (self, None),
        }
    }

    /// The state after RTI: the flags are popped, then a word is popped into
    /// the program counter. Where the stack then holds no word, the program
    /// counter stays.
    pub open spec fn returned_from_interrupt(self) -> Machine {
        let (popped, status) = self.pop_byte();
        let restored = popped.with_flags(Flags::unpacked(status));
        match restored.pop_word() {
            (after, Some(address)) => after.with_pc(address),
            (_, None) => restored,
        }
    }

    /// RTI: the return from an interrupt.
    pub open spec fn rti(self, parameter: InstructionParameter) -> (Machine, Option<u8>) {
        self.implied(parameter, self.returned_from_interrupt())
    }

    /// The state after RTS: a word is popped, and the program counter
    /// becomes that word plus one. Where the stack holds no word, nothing
    /// changes.
    pub open spec fn returned_from_subroutine(self) -> Machine {
        match self.pop_word() {
            (after, Some(address)) => after.with_pc(wrap_word(address + 1)),
            (_, None) => self,
        }
    }

    /// RTS: the return from a subroutine.
    pub open spec fn rts(self, parameter: InstructionParameter) -> (Machine, Option<u8>) {
        self.implied(parameter, self.returned_from_subroutine())
    }

    /// SBC: the accumulator becomes itself less the operand less the borrow,
    /// modulo 256, where the borrow is 1 with carry clear. Carry says that
    /// nothing had to be borrowed from beyond the byte; zero and negative
    /// describe the result; overflow says that the result's bit 7 differs
    /// from both the accumulator's and the operand's.
    pub open spec fn sbc(self, parameter: InstructionParameter) -> (Machine, Option<u8>) {
        match parameter {
            InstructionParameter::Byte(value) => {
                let borrow = if self.flags.carry { 0int } else { 1int };
                let result = wrap_byte(self.registers.acc - value - borrow);
                (
                    self.with_acc(result).with_flags(
                        Flags {
                            carry: self.registers.acc >= value + borrow,
                            zero: result == 0,
                            negative: result >= 128,
                            overflow: (self.registers.acc >= 128) != (result >= 128) && (value
                                >= 128) != (result >= 128),
                            ..self.flags
                        },
                    ),
                    None,
                )
            },
            _ => (self, None),
        }
    }

    /// SEC: sets carry.
    pub open spec fn sec(self, parameter: InstructionParameter) -> (Machine, Option<u8>) {
        self.implied(parameter, self.with_flags(Flags { carry: true, ..self.flags }))
    }

    /// SED: sets decimal.
    pub open spec fn sed(self, parameter: InstructionParameter) -> (Machine, Option<u8>) {
        self.implied(parameter, self.with_flags(Flags { decimal: true, ..self.flags }))
    }

    /// SEI: sets interrupt disable.
    pub open spec fn sei(self, parameter: InstructionParameter) -> (Machine, Option<u8>) {
        self.implied(parameter, self.with_flags(Flags { interrupt: true, ..self.flags }))
    }

    /// STA: the accumulator is moved to the address handed over: it is
    /// stored there, and the accumulator is left at 0.
    pub open spec fn sta(self, parameter: InstructionParameter) -> (Machine, Option<u8>) {
        match parameter {
            InstructionParameter::Word(address) => (
                self.write(address as int, self.registers.acc).with_acc(0),
                None,
            ),
            _ => (self, None),
        }
    }

    /// STX: X is moved to the address handed over: it is stored there, and X
    /// is left at 0.
    pub open spec fn stx(self, parameter: InstructionParameter) -> (Machine, Option<u8>) {
        match parameter {
            InstructionParameter::Word(address) => (
                self.write(address as int, self.registers.xr).with_xr(0),
                None,
            ),
            _ => (self, None),
        }
    }

    /// STY: Y is moved to the address handed over: it is stored there, and Y
    /// is left at 0.
    pub open spec fn sty(self, parameter: InstructionParameter) -> (Machine, Option<u8>) {
        match parameter {
            InstructionParameter::Word(address) => (
                self.write(address as int, self.registers.yr).with_yr(0),
                None,
            ),
            _ => (self, None),
        }
    }

    /// TAX: X becomes the accumulator; zero and negative describe it.
    pub open spec fn tax(self, parameter: InstructionParameter) -> (Machine, Option<u8>) {
        let value = self.registers.acc;
        self.implied(parameter, self.with_xr(value).with_zero_negative(value))
    }

    /// TAY: Y becomes the accumulator; zero and negative describe it.
    pub open spec fn tay(self, parameter: InstructionParameter) -> (Machine, Option<u8>) {
        let value = self.registers.acc;
        self.implied(parameter, self.with_yr(value).with_zero_negative(value))
    }

    /// TSX: X becomes the stack pointer; zero and negative describe it.
    pub open spec fn tsx(self, parameter: InstructionParameter) -> (Machine, Option<u8>) {
        let value = self.registers.sp;
        self.implied(parameter, self.with_xr(value).with_zero_negative(value))
    }

    /// TXA: the accumulator becomes X; zero and negative describe it.
    pub open spec fn txa(self, parameter: InstructionParameter) -> (Machine, Option<u8>) {
        let value = self.registers.xr;
        self.implied(parameter, self.with_acc(value).with_zero_negative(value))
    }

    /// TXS: the stack pointer becomes X. No flag changes.
    pub open spec fn txs(self, parameter: InstructionParameter) -> (Machine, Option<u8>) {
        self.implied(parameter, self.with_sp(self.registers.xr))
    }

    /// TYA: the accumulator becomes Y; zero and negative describe it.
    pub open spec fn tya(self, parameter: InstructionParameter) -> (Machine, Option<u8>) {
        let value = self.registers.yr;
        self.implied(parameter, self.with_acc(value).with_zero_negative(value))
    }

    /// What `operation` does when handed `parameter`.
    pub open spec fn operate(self, operation: Operation, parameter: InstructionParameter) -> (Machine, Option<u8>) {
        match operation {
            Operation::Adc => self.adc(parameter),
            Operation::And => self.and(parameter),
            Operation::Asl => self.asl(parameter),
            Operation::Bcc => self.bcc(parameter),
            Operation::Bcs => self.bcs(parameter),
            Operation::Beq => self.beq(parameter),
            Operation::Bit => self.bit(parameter),
            Operation::Bmi => self.bmi(parameter),
            Operation::Bne => self.bne(parameter),
            Operation::Bpl => self.bpl(parameter),
            Operation::Brk => self.brk(parameter),
            Operation::Bvc => self.bvc(parameter),
            Operation::Bvs => self.bvs(parameter),
            Operation::Clc => self.clc(parameter),
            Operation::Cld => self.cld(parameter),
            Operation::Cli => self.cli(parameter),
            Operation::Clv => self.clv(parameter),
            Operation::Cmp => self.cmp(parameter),
            Operation::Cpx => self.cpx(parameter),
            Operation::Cpy => self.cpy(parameter),
            Operation::Dec => self.dec(parameter),
            Operation::Dex => self.dex(parameter),
            Operation::Dey => self.dey(parameter),
            Operation::Eor => self.eor(parameter),
            Operation::Inc => self.inc(parameter),
            Operation::Inx => self.inx(parameter),
            Operation::Iny => self.iny(parameter),
            Operation::Jmp => self.jmp(parameter),
            Operation::Jsr => self.jsr(parameter),
            Operation::Lda => self.lda(parameter),
            Operation::Ldx => self.ldx(parameter),
            Operation::Ldy => self.ldy(parameter),
            Operation::Lsr => self.lsr(parameter),
            Operation::Nop => self.nop(parameter),
            Operation::Ora => self.ora(parameter),
            Operation::Pha => self.pha(parameter),
            Operation::Php => self.php(parameter),
            Operation::Pla => self.pla(parameter),
            Operation::Plp => self.plp(parameter),
            Operation::Rol => self.rol(parameter),
            Operation::Ror => self.ror(parameter),
            Operation::Rti => self.rti(parameter),
            Operation::Rts => self.rts(parameter),
            Operation::Sbc => self.sbc(parameter),
            Operation::Sec => self.sec(parameter),
            Operation::Sed => self.sed(parameter),
            Operation::Sei => self.sei(parameter),
            Operation::Sta => self.sta(parameter),
            Operation::Stx => self.stx(parameter),
            Operation::Sty => self.sty(parameter),
            Operation::Tax => self.tax(parameter),
            Operation::Tay => self.tay(parameter),
            Operation::Tsx => self.tsx(parameter),
            Operation::Txa => self.txa(parameter),
            Operation::Txs => self.txs(parameter),
            Operation::Tya => self.tya(parameter),
        }
    }

    /// A return that follows a call at once comes back to the byte after
    /// the call, with registers and flags as they were, provided the stack
    /// pointer left room for the return address: it was at 2 or above.
    pub proof fn lemma_call_returns(self, target: u16)
        requires
            self.covers_address_space(),
            self.registers.sp >= 2,
        ensures
            ({
                let called = self.jsr(InstructionParameter::Word(target)).0;
                let back = called.rts(InstructionParameter::Nothing).0;
                &&& called.registers.pc == target
                &&& back.registers == self.registers
                &&& back.flags == self.flags
                &&& back.cycles == self.cycles
            }),
    {
    }

    /// A return from interrupt that follows a BRK at once restores the
    /// flags and the stack pointer and continues two bytes after where the
    /// program counter stood, provided the stack pointer left room for what
    /// BRK pushes: it was at 3 or above.
    pub proof fn lemma_interrupt_returns(self)
        requires
            self.covers_address_space(),
            self.registers.sp >= 3,
        ensures
            ({
                let back = self.interrupted().returned_from_interrupt();
                &&& self.interrupted().registers.pc == self.interrupted().interrupt_vector()
                &&& self.interrupted().flags.interrupt
                &&& back.flags == self.flags
                &&& back.registers == Registers {
                    pc: wrap_word(self.registers.pc + 2),
                    sr: 1,
                    ..self.registers
                }
            }),
    {
        self.flags.lemma_unpack_packed();
        let pointer = self.registers.sp;
        let address = wrap_word(self.registers.pc + 2);
        let broken = self.interrupted();
        assert(broken.registers.sp == pointer - 3);
        assert(broken.memory == self.memory.update(0x100 + pointer, low_byte(address)).update(
            0x100 + pointer - 1,
            high_byte(address),
        ).update(0x100 + pointer - 2, self.flags.packed()));
        let (popped, status) = broken.pop_byte();
        assert(status == self.flags.packed());
        let restored = popped.with_flags(Flags::unpacked(status));
        assert(restored.registers.sp == pointer - 2);
        assert(restored.pop_word().1 == Some(address));
    }

    /// An operation returns a byte exactly where it is one of those that
    /// compute one and it was handed a byte.
    pub proof fn lemma_returns_byte(self, operation: Operation, parameter: InstructionParameter)
        ensures
            self.operate(operation, parameter).1.is_some() <==> operation.returns_byte()
                && parameter is Byte,
    {
    }

    /// An operation that does not redirect the program counter leaves it
    /// alone.
    pub proof fn lemma_operate_keeps_pc(self, operation: Operation, parameter: InstructionParameter)
        ensures
            !operation.redirects() ==> self.operate(operation, parameter).0.registers.pc
                == self.registers.pc,
    {
    }

    /// What the operations have in common: none changes the size of memory
    /// or takes cycles back, and only a branch counts a cycle itself, at most
    /// one.
    pub open spec fn operation_keeps(self, operation: Operation, parameter: InstructionParameter) -> bool {
        let after = self.operate(operation, parameter).0;
        &&& after.memory.len() == self.memory.len()
        &&& self.cycles <= after.cycles <= self.cycles + 1
        &&& !operation.is_branch() ==> after.cycles == self.cycles
    }

    /// No operation changes the size of memory or takes cycles back, and
    /// only a branch counts a cycle itself: at most one.
    #[verifier::rlimit(40)]
    pub proof fn lemma_operate_keeps(self, operation: Operation, parameter: InstructionParameter)
        requires
            self.covers_address_space(),
        ensures
            self.operation_keeps(operation, parameter),
    {
        match operation {
            Operation::Adc | Operation::And | Operation::Asl | Operation::Bit => {
                assert(self.operation_keeps(operation, parameter));
            },
            Operation::Bcc | Operation::Bcs | Operation::Beq | Operation::Bmi => {
                assert(self.operation_keeps(operation, parameter));
            },
            Operation::Bne | Operation::Bpl | Operation::Bvc | Operation::Bvs => {
                assert(self.operation_keeps(operation, parameter));
            },
            Operation::Brk | Operation::Jsr => {
                assert(self.operation_keeps(operation, parameter));
            },
            Operation::Clc | Operation::Cld | Operation::Cli | Operation::Clv => {
                assert(self.operation_keeps(operation, parameter));
            },
            Operation::Cmp | Operation::Cpx | Operation::Cpy => {
                assert(self.operation_keeps(operation, parameter));
            },
            Operation::Dec | Operation::Dex | Operation::Dey | Operation::Eor => {
                assert(self.operation_keeps(operation, parameter));
            },
            Operation::Inc | Operation::Inx | Operation::Iny | Operation::Jmp => {
                assert(self.operation_keeps(operation, parameter));
            },
            Operation::Lda | Operation::Ldx | Operation::Ldy | Operation::Lsr => {
                assert(self.operation_keeps(operation, parameter));
            },
            Operation::Nop | Operation::Ora | Operation::Rol | Operation::Ror => {
                assert(self.operation_keeps(operation, parameter));
            },
            Operation::Pha | Operation::Php | Operation::Pla | Operation::Plp => {
                assert(self.operation_keeps(operation, parameter));
            },
            Operation::Rti | Operation::Rts => {
                assert(self.operation_keeps(operation, parameter));
            },
            Operation::Sbc | Operation::Sec | Operation::Sed | Operation::Sei => {
                assert(self.operation_keeps(operation, parameter));
            },
            Operation::Sta | Operation::Stx | Operation::Sty => {
                assert(self.operation_keeps(operation, parameter));
            },
            Operation::Tax | Operation::Tay | Operation::Tsx => {
                assert(self.operation_keeps(operation, parameter));
            },
            Operation::Txa | Operation::Txs | Operation::Tya => {
                assert(self.operation_keeps(operation, parameter));
            },
        }
    }
}

} // verus!
