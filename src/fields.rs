use vstd::prelude::*;

verus! {

/// The bit of `byte` at position `i`, counted from the most significant bit.
pub open spec fn bit_at(byte: u8, i: int) -> bool {
    (byte >> ((7 - i) as u8)) & 1u8 == 1u8
}

/// Splits a byte into its eight bits, most significant first.
pub fn byte_bits(byte: u8) -> (bits: [bool; 8])
    ensures
        forall|i: int| 0 <= i < 8 ==> bits@[i] == bit_at(byte, i),
{
    let mut bits = [false; 8];
    let mut i: usize = 0;
    while i < 8
        invariant
            0 <= i <= 8,
            forall|j: int| 0 <= j < i ==> bits@[j] == bit_at(byte, j),
        decreases 8 - i,
    {
        let shift: u8 = (7 - i) as u8;
        bits[i] = (byte >> shift) & 1u8 == 1u8;
        i = i + 1;
    }
    bits
}


/// The instruction identities this decoder recognizes.
#[derive(Debug, Clone, Copy, PartialEq, Eq, Structural)]
pub enum Opcode {
    Mov,
}

/// Which operand the reg field of the second byte names.
#[derive(Debug, Clone, Copy, PartialEq, Eq, Structural)]
pub enum Direction {
    /// The reg field names the source; the r/m field names the destination.
    Source,
    /// The reg field names the destination; the r/m field names the source.
    Destination,
}

/// The operand width selected by the lowest bit of the first byte.
///
/// A width bit of 1 selects the 16-bit registers (`Word`), a width bit of 0
/// the 8-bit registers (`Byte`), as in the 8086 encoding.
#[derive(Debug, Clone, Copy, PartialEq, Eq, Structural)]
pub enum WordOrByte {
    Word,
    Byte,
}

/// The two-bit mode field of the second byte. It is decoded and kept, but
/// every mode is read as register-direct addressing.
#[derive(Debug, Clone, Copy)]
pub struct Mod {
    pub bits: (bool, bool),
}

/// The three-bit reg field of the second byte.
#[derive(Debug, Clone, Copy)]
pub struct Reg {
    pub bits: (bool, bool, bool),
}

/// The three-bit r/m field of the second byte.
#[derive(Debug, Clone, Copy)]
pub struct RM {
    pub bits: (bool, bool, bool),
}

/// The number written by a group of three bits, most significant first.
pub open spec fn code_of(bits: (bool, bool, bool)) -> nat {
    (if bits.0 { 4nat } else { 0nat }) + (if bits.1 { 2nat } else { 0nat }) + (if bits.2 { 1nat } else { 0nat })
}

impl Mod {
    /// The mode field as a number in `0..4`.
    pub open spec fn code(self) -> nat {
        (if self.bits.0 { 2nat } else { 0nat }) + (if self.bits.1 { 1nat } else { 0nat })
    }
}

impl Reg {
    /// The reg field as a number in `0..8`.
    pub open spec fn code(self) -> nat {
        code_of(self.bits)
    }
}

impl RM {
    /// The r/m field as a number in `0..8`.
    pub open spec fn code(self) -> nat {
        code_of(self.bits)
    }
}

/// The opcode pattern of `mov` between a register and a register or memory
/// operand, as the top six bits of the first byte.
pub const MOV_PATTERN: u8 = 0x22;

/// Whether the top six bits of `byte` are the `mov` pattern.
pub open spec fn is_mov(byte: u8) -> bool {
    byte >> 2u8 == MOV_PATTERN
}

/// The direction that the first byte selects.
pub open spec fn direction_of(byte: u8) -> Direction {
    if (byte >> 1u8) & 1u8 == 1u8 {
        Direction::Destination
    } else {
        Direction::Source
    }
}

/// The operand width that the first byte selects.
pub open spec fn width_of(byte: u8) -> WordOrByte {
    if byte & 1u8 == 1u8 {
        WordOrByte::Word
    } else {
        WordOrByte::Byte
    }
}

/// What the first byte decodes to: `None` where its opcode is not recognized.
pub open spec fn first_byte_spec(byte: u8) -> Option<(Opcode, Direction, WordOrByte)> {
    if is_mov(byte) {
        Some((Opcode::Mov, direction_of(byte), width_of(byte)))
    } else {
        None
    }
}

proof fn lemma_first_byte_bits(byte: u8)
    ensures
        is_mov(byte) <==> (bit_at(byte, 0) && !bit_at(byte, 1) && !bit_at(byte, 2)
            && !bit_at(byte, 3) && bit_at(byte, 4) && !bit_at(byte, 5)),
        bit_at(byte, 6) <==> (byte >> 1u8) & 1u8 == 1u8,
        bit_at(byte, 7) <==> byte & 1u8 == 1u8,
{
    assert(((byte >> 2u8) == 0x22u8) <==> (((byte >> 7u8) & 1u8 == 1u8) && !((byte >> 6u8) & 1u8
        == 1u8) && !((byte >> 5u8) & 1u8 == 1u8) && !((byte >> 4u8) & 1u8 == 1u8) && ((byte
        >> 3u8) & 1u8 == 1u8) && !((byte >> 2u8) & 1u8 == 1u8))) by (bit_vector);
    assert((byte >> 0u8) & 1u8 == byte & 1u8) by (bit_vector);
}

/// Decodes the first byte of an instruction into its opcode, direction and
/// width. Returns `None` where the top six bits are not the `mov` pattern.
pub fn decode_first_byte(byte: u8) -> (r: Option<(Opcode, Direction, WordOrByte)>)
    ensures
        r == first_byte_spec(byte),
{
    let bits = byte_bits(byte);
    proof {
        lemma_first_byte_bits(byte);
    }
    let opcode_matches = bits[0] && !bits[1] && !bits[2] && !bits[3] && bits[4] && !bits[5];
    if !opcode_matches {
        return None;
    }
    let direction = if bits[6] {
        Direction::Destination
    } else {
        Direction::Source
    };
    let word_or_byte = if bits[7] {
        WordOrByte::Word
    } else {
        WordOrByte::Byte
    };
    Some((Opcode::Mov, direction, word_or_byte))
}

/// The mode field of a second byte: its top two bits.
pub open spec fn mod_code(byte: u8) -> nat {
    (byte >> 6u8) as nat
}

/// The reg field of a second byte: its bits 3 to 5.
pub open spec fn reg_code(byte: u8) -> nat {
    ((byte >> 3u8) & 7u8) as nat
}

/// The r/m field of a second byte: its three lowest bits.
pub open spec fn rm_code(byte: u8) -> nat {
    (byte & 7u8) as nat
}

proof fn lemma_second_byte_bits(byte: u8)
    ensures
        mod_code(byte) == (if bit_at(byte, 0) { 2nat } else { 0nat }) + (if bit_at(byte, 1) { 1nat } else { 0nat }),
        reg_code(byte) == code_of((bit_at(byte, 2), bit_at(byte, 3), bit_at(byte, 4))),
        rm_code(byte) == code_of((bit_at(byte, 5), bit_at(byte, 6), bit_at(byte, 7))),
{
    assert(byte >> 6u8 == 2 * ((byte >> 7u8) & 1u8) + ((byte >> 6u8) & 1u8)) by (bit_vector);
    assert((byte >> 3u8) & 7u8 == 4 * ((byte >> 5u8) & 1u8) + 2 * ((byte >> 4u8) & 1u8) + ((byte
        >> 3u8) & 1u8)) by (bit_vector);
    assert(byte & 7u8 == 4 * ((byte >> 2u8) & 1u8) + 2 * ((byte >> 1u8) & 1u8) + ((byte >> 0u8)
        & 1u8)) by (bit_vector);
    assert((byte >> 7u8) & 1u8 <= 1 && (byte >> 6u8) & 1u8 <= 1 && (byte >> 5u8) & 1u8 <= 1
        && (byte >> 4u8) & 1u8 <= 1 && (byte >> 3u8) & 1u8 <= 1 && (byte >> 2u8) & 1u8 <= 1
        && (byte >> 1u8) & 1u8 <= 1 && (byte >> 0u8) & 1u8 <= 1) by (bit_vector);
}

/// Decodes the second byte of an instruction into its mode, reg and r/m
/// fields, each taken from fixed bit positions.
pub fn decode_second_byte(byte: u8) -> (r: (Mod, Reg, RM))
    ensures
        r.0.code() == mod_code(byte),
        r.1.code() == reg_code(byte),
        r.2.code() == rm_code(byte),
{
    let bits = byte_bits(byte);
    proof {
        lemma_second_byte_bits(byte);
    }
    let modd = Mod { bits: (bits[0], bits[1]) };
    let reg = Reg { bits: (bits[2], bits[3], bits[4]) };
    let rm = RM { bits: (bits[5], bits[6], bits[7]) };
    (modd, reg, rm)
}

} // verus!
