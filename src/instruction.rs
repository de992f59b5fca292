use vstd::prelude::*;
use vstd::string::*;

use crate::fields::{
    Direction, Mod, Opcode, RM, Reg, WordOrByte, decode_first_byte, decode_second_byte,
    first_byte_spec, reg_code, rm_code,
};
use crate::register::{Place, reg_to_place, resolve, rm_to_place};

verus! {

/// A decoded instruction: what it does, where the result goes and where the
/// value comes from.
#[derive(Debug, Clone, Copy, PartialEq, Eq, Structural)]
pub struct Instruction {
    pub mnemonic: Opcode,
    pub destination: Place,
    pub source: Place,
}

impl Opcode {
    /// The lowercase assembly mnemonic.
    pub open spec fn spec_name(self) -> Seq<char> {
        match self {
            Opcode::Mov => seq!['m', 'o', 'v'],
        }
    }

    /// The lowercase assembly mnemonic.
    pub fn name(&self) -> (r: &'static str)
        ensures
            r@ == self.spec_name(),
    {
        match self {
            Opcode::Mov => {
                proof {
                    reveal_strlit("mov");
                }
                "mov"
            },
        }
    }
}

/// Orders the two resolved registers as (destination, source): the reg
/// register is the destination exactly when the direction says so.
pub open spec fn order_operands(direction: Direction, reg_place: Place, rm_place: Place) -> (
    Place,
    Place,
) {
    match direction {
        Direction::Destination => (reg_place, rm_place),
        Direction::Source => (rm_place, reg_place),
    }
}

/// The instruction that the decoded fields of an instruction's two bytes
/// describe.
pub open spec fn assemble(
    opcode: Opcode,
    direction: Direction,
    width: WordOrByte,
    reg: nat,
    rm: nat,
) -> Instruction {
    let ordered = order_operands(direction, resolve(width, reg), resolve(width, rm));
    Instruction { mnemonic: opcode, destination: ordered.0, source: ordered.1 }
}

/// Resolves the reg and r/m fields at the given width and orders them by the
/// direction. The mode field is read as register-direct addressing whatever
/// its value.
pub fn to_asm(
    opcode: Opcode,
    direction: Direction,
    word_or_byte: WordOrByte,
    _modd: Mod,
    reg: Reg,
    rm: RM,
) -> (r: Instruction)
    ensures
        r == assemble(opcode, direction, word_or_byte, reg.code(), rm.code()),
{
    let reg_place = reg_to_place(reg, word_or_byte);
    let rm_place = rm_to_place(rm, word_or_byte);
    let (destination, source) = match direction {
        Direction::Destination => (reg_place, rm_place),
        Direction::Source => (rm_place, reg_place),
    };
    Instruction { mnemonic: opcode, destination, source }
}

impl Instruction {
    /// The assembly line `<mnemonic> <destination>, <source>`, in lowercase.
    pub open spec fn spec_text(self) -> Seq<char> {
        self.mnemonic.spec_name() + seq![' '] + self.destination.spec_name() + seq![',', ' ']
            + self.source.spec_name()
    }

    /// The assembly line `<mnemonic> <destination>, <source>`, in lowercase.
    pub fn to_text(&self) -> (r: String)
        ensures
            r@ == self.spec_text(),
    {
        let mut text = String::from_str(self.mnemonic.name());
        proof {
            reveal_strlit(" ");
            reveal_strlit(", ");
        }
        text.append(" ");
        text.append(self.destination.name());
        text.append(", ");
        text.append(self.source.name());
        assert(text@ =~= self.spec_text());
        text
    }
}

/// What an instruction's two bytes decode to: `None` where the first byte's
/// opcode is not recognized.
pub open spec fn decode_pair_spec(first: u8, second: u8) -> Option<Instruction> {
    match first_byte_spec(first) {
        Some((opcode, direction, width)) => Some(
            assemble(opcode, direction, width, reg_code(second), rm_code(second)),
        ),
        None => None,
    }
}

/// Decodes one instruction from its two bytes.
pub fn decode_pair(first: u8, second: u8) -> (r: Option<Instruction>)
    ensures
        r == decode_pair_spec(first, second),
{
    match decode_first_byte(first) {
        Some((opcode, direction, word_or_byte)) => {
            let (modd, reg, rm) = decode_second_byte(second);
            Some(to_asm(opcode, direction, word_or_byte, modd, reg, rm))
        },
        None => None,
    }
}

/// Where the reg and r/m fields of the second byte are equal, the decoded
/// instruction's destination and source are the same register.
pub proof fn lemma_equal_fields_same_register(first: u8, second: u8)
    requires
        reg_code(second) == rm_code(second),
        decode_pair_spec(first, second) is Some,
    ensures
        decode_pair_spec(first, second)->0.destination == decode_pair_spec(first, second)->0.source,
        decode_pair_spec(first, second)->0.destination.spec_name()
            == decode_pair_spec(first, second)->0.source.spec_name(),
{
}

} // verus!
