use mov_decoder::fields::{
    byte_bits, decode_first_byte, decode_second_byte, Direction, Mod, Opcode, Reg, WordOrByte, RM,
};
use mov_decoder::instruction::{decode_pair, to_asm, Instruction};
use mov_decoder::listing::{disassemble, DecodeError};
use mov_decoder::register::{reg_to_place, rm_to_place, Place};

fn lines_of(bytes: Vec<u8>) -> (Vec<String>, Option<DecodeError>) {
    let listing = disassemble(&bytes);
    (listing.lines, listing.error)
}

fn reg_of(code: u8) -> Reg {
    Reg { bits: (code & 4 != 0, code & 2 != 0, code & 1 != 0) }
}

fn rm_of(code: u8) -> RM {
    RM { bits: (code & 4 != 0, code & 2 != 0, code & 1 != 0) }
}

#[test]
fn mov_ax_bx_from_89_d8() {
    let (lines, error) = lines_of(vec![0x89, 0xD8]);
    assert_eq!(lines, vec!["bits 16".to_string(), "mov ax, bx".to_string()]);
    assert_eq!(error, None);
}

#[test]
fn direction_bit_makes_reg_the_destination() {
    let (lines, error) = lines_of(vec![0x8B, 0xD8]);
    assert_eq!(lines, vec!["bits 16".to_string(), "mov bx, ax".to_string()]);
    assert_eq!(error, None);
}

#[test]
fn width_bit_clear_selects_byte_registers() {
    let (lines, error) = lines_of(vec![0x88, 0xD8]);
    assert_eq!(lines, vec!["bits 16".to_string(), "mov al, bl".to_string()]);
    assert_eq!(error, None);
}

#[test]
fn empty_input_gives_header_only() {
    let (lines, error) = lines_of(vec![]);
    assert_eq!(lines, vec!["bits 16".to_string()]);
    assert_eq!(error, None);
}

#[test]
fn trailing_byte_adds_nothing() {
    let (lines, error) = lines_of(vec![0x89, 0xD8, 0x89]);
    assert_eq!(lines, vec!["bits 16".to_string(), "mov ax, bx".to_string()]);
    assert_eq!(error, None);
}

#[test]
fn single_byte_gives_header_only() {
    let (lines, error) = lines_of(vec![0x00]);
    assert_eq!(lines, vec!["bits 16".to_string()]);
    assert_eq!(error, None);
}

#[test]
fn unsupported_opcode_stops_decoding() {
    let (lines, error) = lines_of(vec![0x89, 0xD8, 0x00, 0xC0, 0x89, 0xD8]);
    assert_eq!(error, Some(DecodeError::UnsupportedOpcode { offset: 2, byte: 0x00 }));
    assert_eq!(lines, vec!["bits 16".to_string(), "mov ax, bx".to_string()]);
}

#[test]
fn unsupported_opcode_at_start() {
    let (lines, error) = lines_of(vec![0x8C, 0xD8, 0x89, 0xD8]);
    assert_eq!(error, Some(DecodeError::UnsupportedOpcode { offset: 0, byte: 0x8C }));
    assert_eq!(lines, vec!["bits 16".to_string()]);
}

#[test]
fn one_line_per_pair_in_order() {
    let (lines, error) = lines_of(vec![0x89, 0xD9, 0x89, 0xE5, 0x88, 0xC4]);
    assert_eq!(error, None);
    assert_eq!(
        lines,
        vec![
            "bits 16".to_string(),
            "mov cx, bx".to_string(),
            "mov bp, sp".to_string(),
            "mov ah, al".to_string(),
        ]
    );
}

#[test]
fn mode_field_is_read_as_register_direct() {
    let (lines, error) = lines_of(vec![0x89, 0x18]);
    assert_eq!(lines, vec!["bits 16".to_string(), "mov ax, bx".to_string()]);
    assert_eq!(error, None);
}

#[test]
fn register_tables() {
    let wide = ["ax", "cx", "dx", "bx", "sp", "bp", "si", "di"];
    let narrow = ["al", "cl", "dl", "bl", "ah", "ch", "dh", "bh"];
    for code in 0u8..8 {
        assert_eq!(reg_to_place(reg_of(code), WordOrByte::Word).name(), wide[code as usize]);
        assert_eq!(rm_to_place(rm_of(code), WordOrByte::Word).name(), wide[code as usize]);
        assert_eq!(reg_to_place(reg_of(code), WordOrByte::Byte).name(), narrow[code as usize]);
        assert_eq!(rm_to_place(rm_of(code), WordOrByte::Byte).name(), narrow[code as usize]);
    }
}

#[test]
fn resolution_is_a_bijection_per_width() {
    for width in [WordOrByte::Word, WordOrByte::Byte] {
        let mut names: Vec<&str> = Vec::new();
        for code in 0u8..8 {
            let name = reg_to_place(reg_of(code), width).name();
            assert!(!names.contains(&name));
            names.push(name);
        }
        assert_eq!(names.len(), 8);
    }
}

#[test]
fn equal_fields_give_the_same_register() {
    for first in [0x88u8, 0x89, 0x8A, 0x8B] {
        for second in 0u8..=255 {
            if (second >> 3) & 7 == second & 7 {
                let inst = decode_pair(first, second).unwrap();
                assert_eq!(inst.destination, inst.source);
                assert_eq!(inst.destination.name(), inst.source.name());
            }
        }
    }
}

#[test]
fn first_byte_fields() {
    assert_eq!(decode_first_byte(0x88), Some((Opcode::Mov, Direction::Source, WordOrByte::Byte)));
    assert_eq!(decode_first_byte(0x89), Some((Opcode::Mov, Direction::Source, WordOrByte::Word)));
    assert_eq!(
        decode_first_byte(0x8A),
        Some((Opcode::Mov, Direction::Destination, WordOrByte::Byte))
    );
    assert_eq!(
        decode_first_byte(0x8B),
        Some((Opcode::Mov, Direction::Destination, WordOrByte::Word))
    );
    assert_eq!(decode_first_byte(0x00), None);
    assert_eq!(decode_first_byte(0x8C), None);
    assert_eq!(decode_first_byte(0xFF), None);
}

#[test]
fn second_byte_fields() {
    let (modd, reg, rm) = decode_second_byte(0xD8);
    assert_eq!(modd.bits, (true, true));
    assert_eq!(reg.bits, (false, true, true));
    assert_eq!(rm.bits, (false, false, false));
    let (modd, reg, rm) = decode_second_byte(0x65);
    assert_eq!(modd.bits, (false, true));
    assert_eq!(reg.bits, (true, false, false));
    assert_eq!(rm.bits, (true, false, true));
}

#[test]
fn bits_most_significant_first() {
    assert_eq!(byte_bits(0x89), [true, false, false, false, true, false, false, true]);
    assert_eq!(byte_bits(0x00), [false; 8]);
    assert_eq!(byte_bits(0x01), [false, false, false, false, false, false, false, true]);
}

#[test]
fn assembled_operand_order() {
    let modd = Mod { bits: (true, true) };
    let inst = to_asm(Opcode::Mov, Direction::Source, WordOrByte::Word, modd, reg_of(3), rm_of(0));
    assert_eq!(
        inst,
        Instruction { mnemonic: Opcode::Mov, destination: Place::AX, source: Place::BX }
    );
    let inst =
        to_asm(Opcode::Mov, Direction::Destination, WordOrByte::Byte, modd, reg_of(7), rm_of(4));
    assert_eq!(
        inst,
        Instruction { mnemonic: Opcode::Mov, destination: Place::BH, source: Place::AH }
    );
}

#[test]
fn instruction_text() {
    let inst = Instruction { mnemonic: Opcode::Mov, destination: Place::SI, source: Place::DI };
    assert_eq!(inst.to_text(), "mov si, di");
    assert_eq!(Opcode::Mov.name(), "mov");
}
