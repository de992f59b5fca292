use vstd::prelude::*;

use crate::fields::{RM, Reg, WordOrByte, code_of};

verus! {

/// One of the sixteen registers that a reg or r/m field can name: eight of
/// eight bits and eight of sixteen bits.
#[derive(Debug, Clone, Copy, PartialEq, Eq, Structural)]
pub enum Place {
    AL,
    CL,
    DL,
    BL,
    AH,
    CH,
    DH,
    BH,

    AX,
    CX,
    DX,
    BX,
    SP,
    BP,
    SI,
    DI,
}

/// The register that a three-bit code names among the registers of `width`.
pub open spec fn resolve(width: WordOrByte, code: nat) -> Place {
    match width {
        WordOrByte::Byte => {
            if code == 0 {
                Place::AL
            } else if code == 1 {
                Place::CL
            } else if code == 2 {
                Place::DL
            } else if code == 3 {
                Place::BL
            } else if code == 4 {
                Place::AH
            } else if code == 5 {
                Place::CH
            } else if code == 6 {
                Place::DH
            } else {
                Place::BH
            }
        },
        WordOrByte::Word => {
            if code == 0 {
                Place::AX
            } else if code == 1 {
                Place::CX
            } else if code == 2 {
                Place::DX
            } else if code == 3 {
                Place::BX
            } else if code == 4 {
                Place::SP
            } else if code == 5 {
                Place::BP
            } else if code == 6 {
                Place::SI
            } else {
                Place::DI
            }
        },
    }
}

impl Place {
    /// The width of the register set that holds this register.
    pub open spec fn width(self) -> WordOrByte {
        match self {
            Place::AL | Place::CL | Place::DL | Place::BL | Place::AH | Place::CH | Place::DH | Place::BH => WordOrByte::Byte,
            _ => WordOrByte::Word,
        }
    }

    /// The three-bit code of this register within its register set.
    pub open spec fn code(self) -> nat {
        match self {
            Place::AL | Place::AX => 0,
            Place::CL | Place::CX => 1,
            Place::DL | Place::DX => 2,
            Place::BL | Place::BX => 3,
            Place::AH | Place::SP => 4,
            Place::CH | Place::BP => 5,
            Place::DH | Place::SI => 6,
            Place::BH | Place::DI => 7,
        }
    }

    /// The lowercase assembly name of this register.
    pub open spec fn spec_name(self) -> Seq<char> {
        match self {
            Place::AL => seq!['a', 'l'],
            Place::CL => seq!['c', 'l'],
            Place::DL => seq!['d', 'l'],
            Place::BL => seq!['b', 'l'],
            Place::AH => seq!['a', 'h'],
            Place::CH => seq!['c', 'h'],
            Place::DH => seq!['d', 'h'],
            Place::BH => seq!['b', 'h'],
            Place::AX => seq!['a', 'x'],
            Place::CX => seq!['c', 'x'],
            Place::DX => seq!['d', 'x'],
            Place::BX => seq!['b', 'x'],
            Place::SP => seq!['s', 'p'],
            Place::BP => seq!['b', 'p'],
            Place::SI => seq!['s', 'i'],
            Place::DI => seq!['d', 'i'],
        }
    }

    /// The lowercase assembly name of this register.
    pub fn name(&self) -> (r: &'static str)
        ensures
            r@ == self.spec_name(),
    {
        match self {
            Place::AL => {
                proof {
                    reveal_strlit("al");
                }
                "al"
            },
            Place::CL => {
                proof {
                    reveal_strlit("cl");
                }
                "cl"
            },
            Place::DL => {
                proof {
                    reveal_strlit("dl");
                }
                "dl"
            },
            Place::BL => {
                proof {
                    reveal_strlit("bl");
                }
                "bl"
            },
            Place::AH => {
                proof {
                    reveal_strlit("ah");
                }
                "ah"
            },
            Place::CH => {
                proof {
                    reveal_strlit("ch");
                }
                "ch"
            },
            Place::DH => {
                proof {
                    reveal_strlit("dh");
                }
                "dh"
            },
            Place::BH => {
                proof {
                    reveal_strlit("bh");
                }
                "bh"
            },
            Place::AX => {
                proof {
                    reveal_strlit("ax");
                }
                "ax"
            },
            Place::CX => {
                proof {
                    reveal_strlit("cx");
                }
                "cx"
            },
            Place::DX => {
                proof {
                    reveal_strlit("dx");
                }
                "dx"
            },
            Place::BX => {
                proof {
                    reveal_strlit("bx");
                }
                "bx"
            },
            Place::SP => {
                proof {
                    reveal_strlit("sp");
                }
                "sp"
            },
            Place::BP => {
                proof {
                    reveal_strlit("bp");
                }
                "bp"
            },
            Place::SI => {
                proof {
                    reveal_strlit("si");
                }
                "si"
            },
            Place::DI => {
                proof {
                    reveal_strlit("di");
                }
                "di"
            },
        }
    }
}

/// Each code below 8 names a register of the given width, and that register
/// carries the code back.
pub proof fn lemma_resolve_round_trip(width: WordOrByte, code: nat)
    requires
        code < 8,
    ensures
        resolve(width, code).width() == width,
        resolve(width, code).code() == code,
{
}

/// Register resolution at a fixed width is a bijection from the eight
/// three-bit codes onto the eight registers of that width: distinct codes
/// give distinct registers with distinct names, and every register of the
/// width is reached.
pub proof fn lemma_resolve_bijective(width: WordOrByte)
    ensures
        forall|c: nat| c < 8 ==> (#[trigger] resolve(width, c)).width() == width,
        forall|c1: nat, c2: nat|
            c1 < 8 && c2 < 8 && c1 != c2 ==> #[trigger] resolve(width, c1).spec_name()
                != #[trigger] resolve(width, c2).spec_name(),
        forall|p: Place| #[trigger] p.width() == width ==> p.code() < 8 && resolve(width, p.code()) == p,
{
    assert forall|c: nat| c < 8 implies (#[trigger] resolve(width, c)).width() == width by {
        lemma_resolve_round_trip(width, c);
    }
    assert forall|c1: nat, c2: nat|
        c1 < 8 && c2 < 8 && c1 != c2 implies #[trigger] resolve(width, c1).spec_name()
            != #[trigger] resolve(width, c2).spec_name() by {
        lemma_resolve_round_trip(width, c1);
        lemma_resolve_round_trip(width, c2);
        lemma_names_distinct(resolve(width, c1), resolve(width, c2));
    }
}

/// Distinct registers have distinct names.
pub proof fn lemma_names_distinct(p1: Place, p2: Place)
    requires
        p1 != p2,
    ensures
        p1.spec_name() != p2.spec_name(),
{
    if p1.spec_name() == p2.spec_name() {
        assert(p1.spec_name()[0] == p2.spec_name()[0]);
        assert(p1.spec_name()[1] == p2.spec_name()[1]);
    }
}

fn place_for_bits(bits: (bool, bool, bool), word_or_byte: WordOrByte) -> (r: Place)
    ensures
        r == resolve(word_or_byte, code_of(bits)),
{
    match word_or_byte {
        WordOrByte::Byte => match bits {
            (false, false, false) => Place::AL,
            (false, false, true) => Place::CL,
            (false, true, false) => Place::DL,
            (false, true, true) => Place::BL,
            (true, false, false) => Place::AH,
            (true, false, true) => Place::CH,
            (true, true, false) => Place::DH,
            (true, true, true) => Place::BH,
        },
        WordOrByte::Word => match bits {
            (false, false, false) => Place::AX,
            (false, false, true) => Place::CX,
            (false, true, false) => Place::DX,
            (false, true, true) => Place::BX,
            (true, false, false) => Place::SP,
            (true, false, true) => Place::BP,
            (true, true, false) => Place::SI,
            (true, true, true) => Place::DI,
        },
    }
}

/// The register that the r/m field names at the given width.
pub fn rm_to_place(rm: RM, word_or_byte: WordOrByte) -> (r: Place)
    ensures
        r == resolve(word_or_byte, rm.code()),
{
    place_for_bits(rm.bits, word_or_byte)
}

/// The register that the reg field names at the given width.
pub fn reg_to_place(reg: Reg, word_or_byte: WordOrByte) -> (r: Place)
    ensures
        r == resolve(word_or_byte, reg.code()),
{
    place_for_bits(reg.bits, word_or_byte)
}

} // verus!
