//! A 16-bit CHIP-8 instruction word and its hex-digit fields.

use vstd::prelude::*;

verus! {

/// The most significant hex digit of an instruction word (the opcode class).
pub open spec fn first_nibble(bits: u16) -> u16 {
    bits / 0x1000
}

/// The second hex digit of an instruction word (usually the register `X`).
pub open spec fn second_nibble(bits: u16) -> u16 {
    (bits / 0x100) % 0x10
}

/// The third hex digit of an instruction word (usually the register `Y`).
pub open spec fn third_nibble(bits: u16) -> u16 {
    (bits / 0x10) % 0x10
}

/// The least significant hex digit of an instruction word.
pub open spec fn fourth_nibble(bits: u16) -> u16 {
    bits % 0x10
}

/// The last two hex digits of an instruction word (an 8-bit immediate `NN`).
pub open spec fn low_byte(bits: u16) -> u8 {
    (bits % 0x100) as u8
}

/// The last three hex digits of an instruction word (a 12-bit address `NNN`).
pub open spec fn low_twelve(bits: u16) -> u16 {
    bits % 0x1000
}

/// One instruction word, as fetched big-endian from memory.
#[derive(Debug)]
pub struct Chip8Instr {
    pub bits: u16,
}

impl Chip8Instr {
    pub fn first(&self) -> (r: u16)
        ensures
            r == first_nibble(self.bits),
            r < 16,
    {
        let b = self.bits;
        assert((b & 0xF000) >> 12 == b / 0x1000 && b / 0x1000 < 16) by (bit_vector);
        (self.bits & 0xF000) >> 12
    }

    pub fn second(&self) -> (r: u16)
        ensures
            r == second_nibble(self.bits),
            r < 16,
    {
        let b = self.bits;
        assert((b & 0x0F00) >> 8 == (b / 0x100) % 0x10) by (bit_vector);
        (self.bits & 0x0F00) >> 8
    }

    pub fn third(&self) -> (r: u16)
        ensures
            r == third_nibble(self.bits),
            r < 16,
    {
        let b = self.bits;
        assert((b & 0x00F0) >> 4 == (b / 0x10) % 0x10) by (bit_vector);
        (self.bits & 0x00F0) >> 4
    }

    pub fn fourth(&self) -> (r: u16)
        ensures
            r == fourth_nibble(self.bits),
            r < 16,
    {
        let b = self.bits;
        assert(b & 0x000F == b % 0x10) by (bit_vector);
        self.bits & 0x000F
    }

    /// The last two hex digits.
    pub fn nn(&self) -> (r: u8)
        ensures
            r == low_byte(self.bits),
    {
        let b = self.bits;
        assert(b & 0x00FF == b % 0x100) by (bit_vector);
        (self.bits & 0x00FF) as u8
    }

    /// The last three hex digits.
    pub fn nnn(&self) -> (r: u16)
        ensures
            r == low_twelve(self.bits),
            r < 0x1000,
    {
        let b = self.bits;
        assert(b & 0x0FFF == b % 0x1000) by (bit_vector);
        self.bits & 0x0FFF
    }

    /// The register named by the second hex digit.
    pub fn reg_x(&self) -> (r: usize)
        ensures
            r == second_nibble(self.bits),
            r < 16,
    {
        self.second() as usize
    }

    /// The register named by the third hex digit.
    pub fn reg_y(&self) -> (r: usize)
        ensures
            r == third_nibble(self.bits),
            r < 16,
    {
        self.third() as usize
    }
}

/// The four hex digits put back together give the word again, and the
/// immediates `NN` and `NNN` are exactly its last two and three digits.
pub proof fn lemma_nibbles_compose(bits: u16)
    ensures
        bits == first_nibble(bits) * 0x1000 + second_nibble(bits) * 0x100
            + third_nibble(bits) * 0x10 + fourth_nibble(bits),
        low_byte(bits) == third_nibble(bits) * 0x10 + fourth_nibble(bits),
        low_twelve(bits) == second_nibble(bits) * 0x100 + third_nibble(bits) * 0x10
            + fourth_nibble(bits),
        first_nibble(bits) < 16,
        second_nibble(bits) < 16,
        third_nibble(bits) < 16,
        fourth_nibble(bits) < 16,
{
    assert(bits == (bits / 0x1000) * 0x1000 + ((bits / 0x100) % 0x10) * 0x100 + ((bits / 0x10)
        % 0x10) * 0x10 + bits % 0x10) by (bit_vector);
    assert(bits % 0x100 == ((bits / 0x10) % 0x10) * 0x10 + bits % 0x10) by (bit_vector);
    assert(bits % 0x1000 == ((bits / 0x100) % 0x10) * 0x100 + ((bits / 0x10) % 0x10) * 0x10 + bits
        % 0x10) by (bit_vector);
    assert(bits / 0x1000 < 16) by (bit_vector);
}

} // verus!
