//! The processor status flags and their packed byte form.
//!
//! Bit layout of the packed byte, lowest bit first: negative, overflow,
//! (unused), break, decimal, interrupt disable, zero, carry.

use vstd::prelude::*;
use crate::bitwise::{bit_is_set, bit_weight, lemma_bit_positions, lemma_byte_is_sum_of_bits};

verus! {

/// The seven status flags.
#[derive(Clone, Copy, Debug, PartialEq, Eq)]
pub struct Flags {
    /// Bit 7 of the last result was set.
    pub negative: bool,
    /// The last subtraction changed sign against both operands, or bit 6 of
    /// the last byte tested by BIT was set.
    pub overflow: bool,
    /// The break flag.
    pub brk: bool,
    /// The decimal flag. It is kept, but arithmetic stays binary.
    pub decimal: bool,
    /// The interrupt disable flag.
    pub interrupt: bool,
    /// The last result was 0.
    pub zero: bool,
    /// The last addition carried, the last subtraction did not borrow, or
    /// the last shift pushed a set bit out.
    pub carry: bool,
}

/// The weight a flag contributes to the packed byte: `weight` when set.
pub open spec fn flag_bit(set: bool, weight: int) -> int {
    if set {
        weight
    } else {
        0
    }
}

/// Setting a bit above every bit already present adds that bit's weight.
proof fn lemma_set_fresh_bit(byte: u8, position: u8)
    by (bit_vector)
    requires
        position < 8,
        byte < bit_weight(position),
    ensures
        1u8 << position == bit_weight(position),
        byte | (1u8 << position) == byte + bit_weight(position),
{
}

/// Shifting a bit down to position 0 and masking it tests that bit.
proof fn lemma_test_bit(byte: u8, position: u8)
    by (bit_vector)
    requires
        position < 8,
    ensures
        ((byte >> position) & 1 != 0) == bit_is_set(byte, position),
        (byte & 1 != 0) == bit_is_set(byte, 0),
{
}

impl Flags {
    /// The packed byte: each set flag contributes the weight of its bit.
    pub open spec fn packed(self) -> u8 {
        (flag_bit(self.negative, 1) + flag_bit(self.overflow, 2) + flag_bit(self.brk, 8)
            + flag_bit(self.decimal, 16) + flag_bit(self.interrupt, 32) + flag_bit(self.zero, 64)
            + flag_bit(self.carry, 128)) as u8
    }

    /// The flags held by a packed byte. Bit 2 holds no flag and is ignored.
    pub open spec fn unpacked(byte: u8) -> Flags {
        Flags {
            negative: bit_is_set(byte, 0),
            overflow: bit_is_set(byte, 1),
            brk: bit_is_set(byte, 3),
            decimal: bit_is_set(byte, 4),
            interrupt: bit_is_set(byte, 5),
            zero: bit_is_set(byte, 6),
            carry: bit_is_set(byte, 7),
        }
    }

    /// All flags clear.
    pub open spec fn cleared() -> Flags {
        Flags {
            negative: false,
            overflow: false,
            brk: false,
            decimal: false,
            interrupt: false,
            zero: false,
            carry: false,
        }
    }

    /// Unpacking a packed set of flags gives the same flags back.
    pub proof fn lemma_unpack_packed(self)
        ensures
            Flags::unpacked(self.packed()) == self,
    {
        lemma_bit_positions(self.packed());
    }

    /// Packing the flags of a byte gives the byte back, but for bit 2, which
    /// holds no flag and comes back clear.
    pub proof fn lemma_pack_unpacked(byte: u8)
        ensures
            Flags::unpacked(byte).packed() == byte - flag_bit(bit_is_set(byte, 2), 4),
            !bit_is_set(byte, 2) ==> Flags::unpacked(byte).packed() == byte,
    {
        lemma_bit_positions(byte);
        lemma_byte_is_sum_of_bits(byte);
        assert(flag_bit(bit_is_set(byte, 0), 1) == byte % 2);
        assert(flag_bit(bit_is_set(byte, 1), 2) == ((byte / 2) % 2) * 2);
        assert(flag_bit(bit_is_set(byte, 2), 4) == ((byte / 4) % 2) * 4);
        assert(flag_bit(bit_is_set(byte, 3), 8) == ((byte / 8) % 2) * 8);
        assert(flag_bit(bit_is_set(byte, 4), 16) == ((byte / 16) % 2) * 16);
        assert(flag_bit(bit_is_set(byte, 5), 32) == ((byte / 32) % 2) * 32);
        assert(flag_bit(bit_is_set(byte, 6), 64) == ((byte / 64) % 2) * 64);
        assert(flag_bit(bit_is_set(byte, 7), 128) == (byte / 128) * 128);
    }

    /// Packs the flags into one byte.
    pub fn to_byte(&self) -> (byte: u8)
        ensures
            byte == self.packed(),
    {
        let mut byte: u8 = 0u8;

        if self.negative {
            proof { lemma_set_fresh_bit(byte, 0); }
            byte |= 1 << 0
        }
        if self.overflow {
            proof { lemma_set_fresh_bit(byte, 1); }
            byte |= 1 << 1
        }
        if self.brk {
            proof { lemma_set_fresh_bit(byte, 3); }
            byte |= 1 << 3
        }
        if self.decimal {
            proof { lemma_set_fresh_bit(byte, 4); }
            byte |= 1 << 4
        }
        if self.interrupt {
            proof { lemma_set_fresh_bit(byte, 5); }
            byte |= 1 << 5
        }
        if self.zero {
            proof { lemma_set_fresh_bit(byte, 6); }
            byte |= 1 << 6
        }
        if self.carry {
            proof { lemma_set_fresh_bit(byte, 7); }
            byte |= 1 << 7
        }

        byte
    }

    /// Replaces every flag by the one held in `byte`.
    pub fn load_from_byte(&mut self, byte: u8)
        ensures
            *final(self) == Flags::unpacked(byte),
    {
        proof {
            lemma_test_bit(byte, 1);
            lemma_test_bit(byte, 3);
            lemma_test_bit(byte, 4);
            lemma_test_bit(byte, 5);
            lemma_test_bit(byte, 6);
            lemma_test_bit(byte, 7);
        }
        self.negative = byte & 1 != 0;
        self.overflow = byte >> 1 & 1 != 0;
        self.brk = byte >> 3 & 1 != 0;
        self.decimal = byte >> 4 & 1 != 0;
        self.interrupt = byte >> 5 & 1 != 0;
        self.zero = byte >> 6 & 1 != 0;
        self.carry = byte >> 7 & 1 != 0;
    }

    /// The flags held in `byte`.
    pub fn from_byte(byte: u8) -> (flags: Flags)
        ensures
            flags == Flags::unpacked(byte),
    {
        let mut flags = Flags {
            negative: false,
            overflow: false,
            brk: false,
            decimal: false,
            interrupt: false,
            zero: false,
            carry: false,
        };
        flags.load_from_byte(byte);
        flags
    }
}

} // verus!
