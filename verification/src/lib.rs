//! A cycle-counting interpreter core for the 6502 instruction set.
//!
//! The executable processor is [`cpu::CPU`]. Its meaning is given by the
//! mathematical machine in [`machine`], whose operations are laid down in
//! [`semantics`], and every executable function is proved to compute what
//! that machine prescribes.
//!
//! A driver owns the instruction stream and the loop. It either calls
//! [`cpu::CPU::step`] until the program counter leaves the stream, or takes
//! opcodes itself, looks them up in the operation table and hands the
//! descriptors to [`cpu::CPU::execute_instruction`].

pub mod addressing;
pub mod bitwise;
pub mod cpu;
pub mod dispatch;
pub mod flags;
pub mod instruction_set;
pub mod instructions;
pub mod machine;
pub mod memory;
pub mod operations;
pub mod semantics;
pub mod stack;
