use sim6_asm::error::AsmError;
use sim6_asm::number::{
    convert_imm_str_to_u16, convert_imm_str_to_u32, convert_imm_str_to_u8, decimal_string,
};
use sim6_asm::repr::data::{directive_kind, strip_label, Data, Directive};

#[test]
fn test_get_valid_data() {
    assert_eq!(Data::parse(".byte 25").unwrap(), Data { bytes: vec![25] });
    assert_eq!(Data::parse(".byte 0x50").unwrap(), Data { bytes: vec![0x50] });
    assert_eq!(Data::parse(".word 0xAABB").unwrap(), Data { bytes: vec![0xAA, 0xBB] });
    assert_eq!(Data::parse(".word 0b1010101010101010").unwrap(), Data { bytes: vec![0xAA, 0xAA] });
    assert_eq!(
        Data::parse(".long 0x12345678").unwrap(),
        Data { bytes: vec![0x12, 0x34, 0x56, 0x78] }
    );
    assert_eq!(Data::parse(".array 25 40 32 18").unwrap(), Data { bytes: vec![25, 40, 32, 18] });
    assert_eq!(
        Data::parse(".array 0xAC 40 0b11001100 18").unwrap(),
        Data { bytes: vec![0xAC, 40, 0b11001100, 18] }
    );
    assert_eq!(
        Data::parse(".asciiz `Hey you!`").unwrap(),
        Data { bytes: vec![0x48, 0x65, 0x79, 0x20, 0x79, 0x6F, 0x75, 0x21, 0x00] }
    );
}

#[test]
#[should_panic]
fn test_invalid_data_type() {
    _ = Data::parse(".bad 70").unwrap();
}

#[test]
#[should_panic]
fn test_data_pos_overflow() {
    _ = Data::parse(".long 7000000000").unwrap();
}

#[test]
#[should_panic]
fn test_invalid_int_prefix() {
    _ = Data::parse(".byte 0c55").unwrap();
}

#[test]
fn asciiz_adds_one_zero_byte() {
    assert_eq!(Data::parse(".asciiz `Hi`").unwrap().bytes, vec![0x48, 0x69, 0x00]);
    assert_eq!(Data::parse(".asciiz ``").unwrap().bytes, vec![0x00]);
    assert_eq!(Data::parse("  .asciiz   `a b`  ").unwrap().bytes, vec![0x61, 0x20, 0x62, 0x00]);
    assert_eq!(
        Data::parse(".asciiz `h\u{e9}\u{20ac}`").unwrap().bytes,
        vec![0x68, 0xC3, 0xA9, 0xE2, 0x82, 0xAC, 0x00]
    );
    assert_eq!(Data::parse(".asciiz `a`b`").unwrap().bytes, vec![0x61, 0x60, 0x62, 0x00]);
    assert_eq!(Data::parse(".asciiz `abc").unwrap().bytes, vec![0x61, 0x62, 0x00]);
}

#[test]
fn asciiz_needs_a_text() {
    assert_eq!(Data::parse(".asciiz"), Err(AsmError::UnterminatedText));
    assert_eq!(Data::parse(".asciiz hello"), Err(AsmError::UnterminatedText));
    assert_eq!(Data::parse(".asciiz `"), Err(AsmError::UnterminatedText));
}

#[test]
fn data_errors() {
    assert_eq!(Data::parse(".bad 70"), Err(AsmError::UnknownDirective));
    assert_eq!(Data::parse(""), Err(AsmError::UnknownDirective));
    assert_eq!(Data::parse(".BYTE 1"), Err(AsmError::UnknownDirective));
    assert_eq!(Data::parse("byte 1"), Err(AsmError::UnknownDirective));
    assert_eq!(Data::parse(".long 7000000000"), Err(AsmError::ImmediateOutOfRange));
    assert_eq!(Data::parse(".byte 0c55"), Err(AsmError::ImmediateOutOfRange));
    assert_eq!(Data::parse(".byte 256"), Err(AsmError::ImmediateOutOfRange));
    assert_eq!(Data::parse(".byte"), Err(AsmError::ImmediateOutOfRange));
    assert_eq!(Data::parse(".word 65536"), Err(AsmError::ImmediateOutOfRange));
    assert_eq!(Data::parse(".word -1"), Err(AsmError::ImmediateOutOfRange));
    assert_eq!(Data::parse(".long 4294967296"), Err(AsmError::ImmediateOutOfRange));
    assert_eq!(Data::parse(".array 1 2 256 4"), Err(AsmError::ImmediateOutOfRange));
    assert_eq!(Data::parse(".array 1 x"), Err(AsmError::ImmediateOutOfRange));
}

#[test]
fn data_extremes() {
    assert_eq!(Data::parse(".byte 255").unwrap().bytes, vec![255]);
    assert_eq!(Data::parse(".byte 0").unwrap().bytes, vec![0]);
    assert_eq!(Data::parse(".word 65535").unwrap().bytes, vec![0xFF, 0xFF]);
    assert_eq!(Data::parse(".word 1").unwrap().bytes, vec![0x00, 0x01]);
    assert_eq!(Data::parse(".word 256").unwrap().bytes, vec![0x01, 0x00]);
    assert_eq!(Data::parse(".long 4294967295").unwrap().bytes, vec![0xFF, 0xFF, 0xFF, 0xFF]);
    assert_eq!(Data::parse(".long 1").unwrap().bytes, vec![0, 0, 0, 1]);
    assert_eq!(Data::parse(".long 0x01020304").unwrap().bytes, vec![1, 2, 3, 4]);
    assert_eq!(Data::parse(".array").unwrap().bytes, Vec::<u8>::new());
    assert_eq!(Data::parse(".byte 7 8 9").unwrap().bytes, vec![7]);
}

#[test]
fn data_label_is_stripped() {
    assert_eq!(Data::parse("my_byte: .byte 25").unwrap().bytes, vec![25]);
    assert_eq!(Data::parse("x:.word 0x0102").unwrap().bytes, vec![1, 2]);
    assert_eq!(Data::parse("a: b: .byte 1"), Err(AsmError::UnknownDirective));
    assert_eq!(strip_label("lbl: .byte 1"), " .byte 1");
    assert_eq!(strip_label(".byte 1"), ".byte 1");
    assert_eq!(strip_label("lbl:"), "");
    assert_eq!(Data::from_directive(".byte 9").unwrap().bytes, vec![9]);
    assert_eq!(Data::from_directive("l: .byte 9"), Err(AsmError::UnknownDirective));
}

#[test]
fn directive_names() {
    assert_eq!(directive_kind(".byte"), Some(Directive::Byte));
    assert_eq!(directive_kind(".word"), Some(Directive::Word));
    assert_eq!(directive_kind(".long"), Some(Directive::Long));
    assert_eq!(directive_kind(".array"), Some(Directive::Array));
    assert_eq!(directive_kind(".asciiz"), Some(Directive::Asciiz));
    assert_eq!(directive_kind(".ascii"), None);
    assert_eq!(directive_kind(""), None);
}

#[test]
fn numerals_in_three_radices() {
    assert_eq!(convert_imm_str_to_u8("0x1F"), Ok(31));
    assert_eq!(convert_imm_str_to_u8("0x1f"), Ok(31));
    assert_eq!(convert_imm_str_to_u8("0b101"), Ok(5));
    assert_eq!(convert_imm_str_to_u8("017"), Ok(17));
    assert_eq!(convert_imm_str_to_u8("+17"), Ok(17));
    assert_eq!(convert_imm_str_to_u8("0x+1F"), Ok(31));
    assert_eq!(convert_imm_str_to_u8("255"), Ok(255));
    assert_eq!(convert_imm_str_to_u8("0000000255"), Ok(255));
    assert_eq!(convert_imm_str_to_u16("0xFFFF"), Ok(0xFFFF));
    assert_eq!(convert_imm_str_to_u16("36864"), Ok(0x9000));
    assert_eq!(convert_imm_str_to_u32("0xFFFFFFFF"), Ok(u32::MAX));
    assert_eq!(convert_imm_str_to_u32("0b11111111111111111111111111111111"), Ok(u32::MAX));
}

#[test]
fn malformed_numerals() {
    for text in ["", "+", "-1", "0x", "0b", "0b2", "0xG", "1_000", " 1", "1 ", "0X1F", "0B1", "++1", "1+", "\u{661}"] {
        assert_eq!(convert_imm_str_to_u8(text), Err(AsmError::ImmediateOutOfRange));
        assert_eq!(convert_imm_str_to_u16(text), Err(AsmError::ImmediateOutOfRange));
        assert_eq!(convert_imm_str_to_u32(text), Err(AsmError::ImmediateOutOfRange));
    }
    assert_eq!(convert_imm_str_to_u8("256"), Err(AsmError::ImmediateOutOfRange));
    assert_eq!(convert_imm_str_to_u16("65536"), Err(AsmError::ImmediateOutOfRange));
    assert_eq!(convert_imm_str_to_u32("4294967296"), Err(AsmError::ImmediateOutOfRange));
    assert_eq!(
        convert_imm_str_to_u32("99999999999999999999999999"),
        Err(AsmError::ImmediateOutOfRange)
    );
}

#[test]
fn decimal_numerals() {
    assert_eq!(decimal_string(0), "0");
    assert_eq!(decimal_string(7), "7");
    assert_eq!(decimal_string(10), "10");
    assert_eq!(decimal_string(36864), "36864");
    assert_eq!(decimal_string(22528), "22528");
    assert_eq!(decimal_string(1002003), "1002003");
    assert_eq!(decimal_string(usize::MAX), usize::MAX.to_string());
    for n in [0usize, 9, 10, 99, 100, 255, 256, 65535] {
        assert_eq!(convert_imm_str_to_u16(&decimal_string(n)), Ok(n as u16));
    }
}
