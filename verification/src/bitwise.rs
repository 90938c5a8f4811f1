//! Byte and word helpers: packing, splitting and single-bit tests.

use vstd::prelude::*;

verus! {

/// The 16-bit word made of a high and a low byte.
pub open spec fn word(high: u8, low: u8) -> u16 {
    (high * 256 + low) as u16
}

/// The upper eight bits of a word.
pub open spec fn high_byte(value: u16) -> u8 {
    (value / 256) as u8
}

/// The lower eight bits of a word.
pub open spec fn low_byte(value: u16) -> u8 {
    (value % 256) as u8
}

/// An integer reduced modulo 256, as a byte.
pub open spec fn wrap_byte(value: int) -> u8 {
    (value % 256) as u8
}

/// An integer reduced modulo 65536, as a word.
pub open spec fn wrap_word(value: int) -> u16 {
    (value % 65536) as u16
}

/// A byte read as a two's complement number between -128 and 127.
pub open spec fn signed(value: u8) -> int {
    if value >= 128 {
        value - 256
    } else {
        value as int
    }
}

/// The weight of the bit at `position`: two to the power `position`.
pub open spec fn bit_weight(position: u8) -> u8
    recommends
        position < 8,
{
    if position == 0 {
        1
    } else if position == 1 {
        2
    } else if position == 2 {
        4
    } else if position == 3 {
        8
    } else if position == 4 {
        16
    } else if position == 5 {
        32
    } else if position == 6 {
        64
    } else {
        128
    }
}

/// Whether the bit at `position` is set in `value`.
pub open spec fn bit_is_set(value: u8, position: u8) -> bool
    recommends
        position < 8,
{
    (value / bit_weight(position)) % 2 == 1
}

/// The top and bottom bit of a byte, and halving, in terms of arithmetic.
pub proof fn lemma_byte_ends(value: u8)
    by (bit_vector)
    ensures
        (value & 0x80 != 0) == (value >= 128),
        value & 0x80 == (if value >= 128 { 128u8 } else { 0u8 }),
        (value & 1 != 0) == (value % 2 == 1),
        value >> 1 == value / 2,
{
}

/// Doubling and rotating a byte by one bit, in terms of arithmetic.
pub proof fn lemma_byte_rotations(value: u8)
    by (bit_vector)
    ensures
        value << 1 == (value % 128) * 2,
        (value << 1) | (value >> 7) == (value % 128) * 2 + value / 128,
        (value >> 1) | (value << 7) == value / 2 + (value % 2) * 128,
{
}

/// What `bit_is_set` says at each of the eight positions, with the weights
/// written out.
pub proof fn lemma_bit_positions(value: u8)
    by (bit_vector)
    ensures
        bit_is_set(value, 0) == (value % 2 == 1),
        bit_is_set(value, 1) == ((value / 2) % 2 == 1),
        bit_is_set(value, 2) == ((value / 4) % 2 == 1),
        bit_is_set(value, 3) == ((value / 8) % 2 == 1),
        bit_is_set(value, 4) == ((value / 16) % 2 == 1),
        bit_is_set(value, 5) == ((value / 32) % 2 == 1),
        bit_is_set(value, 6) == ((value / 64) % 2 == 1),
        bit_is_set(value, 7) == (value >= 128),
{
}

/// A byte is the sum of the weights of its bits.
pub proof fn lemma_byte_is_sum_of_bits(value: u8)
    by (bit_vector)
    ensures
        value == (value % 2) + ((value / 2) % 2) * 2 + ((value / 4) % 2) * 4 + ((value / 8) % 2) * 8
            + ((value / 16) % 2) * 16 + ((value / 32) % 2) * 32 + ((value / 64) % 2) * 64 + (value
            / 128) * 128,
{
}

/// Masking with a single bit keeps the bit's weight or nothing.
pub proof fn lemma_single_bit(value: u8, position: u8)
    by (bit_vector)
    requires
        position < 8,
    ensures
        value & (1u8 << position) == (if bit_is_set(value, position) {
            bit_weight(position)
        } else {
            0u8
        }),
{
}

/// Shifts and masks on words, in terms of arithmetic.
pub proof fn lemma_word_bits(value: u16, other: u16)
    by (bit_vector)
    ensures
        value >> 8 == value / 256,
        value & 0xFF == value % 256,
        ((value & 0xFF00) != (other & 0xFF00)) == (value / 256 != other / 256),
{
}

/// Joining two bytes with a shift is the same as weighing the high byte by 256.
pub proof fn lemma_word_join(high: u8, low: u8)
    by (bit_vector)
    ensures
        (high as u16) << 8 | (low as u16) == high * 256 + low,
{
}

/// Whether bit 7 of `value` is set, that is, whether `value` is at least 128.
pub fn is_highest_bit_set(value: u8) -> (set: bool)
    ensures
        set == (value >= 128),
{
    proof {
        lemma_byte_ends(value);
    }
    value & 0b10000000 != 0
}

/// Splits a word into its high and low byte, in that order.
pub fn split_word_into_bytes(value: u16) -> (bytes: (u8, u8))
    ensures
        bytes.0 == high_byte(value),
        bytes.1 == low_byte(value),
        word(bytes.0, bytes.1) == value,
{
    proof {
        lemma_word_bits(value, 0);
    }
    ((value >> 8) as u8, (value & 0xFF) as u8)
}

/// Joins a high and a low byte into the word `high_byte * 256 + low_byte`.
pub fn merge_bytes_into_word(high_byte: u8, low_byte: u8) -> (merged: u16)
    ensures
        merged == word(high_byte, low_byte),
        merged == high_byte * 256 + low_byte,
{
    proof {
        lemma_word_join(high_byte, low_byte);
    }
    (high_byte as u16) << 8 | low_byte as u16
}

/// Isolates bit 7 of `value`: 128 when it is set, 0 otherwise.
pub fn get_msb(value: u8) -> (bit: u8)
    ensures
        bit == (if value >= 128 { 128u8 } else { 0u8 }),
{
    get_bit_at_position(value, 7)
}

/// Isolates the bit at `position` (0 is the lowest): the bit's weight when it
/// is set in `value`, 0 otherwise.
pub fn get_bit_at_position(value: u8, position: u8) -> (bit: u8)
    requires
        position < 8,
    ensures
        bit == (if bit_is_set(value, position) { bit_weight(position) } else { 0u8 }),
        (bit != 0) == bit_is_set(value, position),
{
    proof {
        lemma_single_bit(value, position);
    }
    value & (1 << position)
}

} // verus!
