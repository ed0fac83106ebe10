use sim6_asm::error::AsmError;
use sim6_asm::label_table::{get_label_table, LabelTable, CODE_BASE, DATA_BASE};

fn lines(text: &[&str]) -> Vec<String> {
    text.iter().map(|line| line.to_string()).collect()
}

#[test]
fn label_table_of_a_program() {
    let program = lines(&[
        "my_byte: .byte 5",
        "my_word: .word 0xAABB",
        "my_long: .long 0x12345678",
        "my_array: .array 1 2 3 4 5",
        "my_ascii: .asciiz `Hello`",
        ".code:",
        "start: movi ax, 5",
        "label_2: add ax, bx",
        "label_3: movi bx, @my_byte",
        "inc ax",
        "label_4: nop",
    ]);
    let label_table = get_label_table(&program).unwrap();

    assert_eq!(label_table.get("my_byte"), Some(0x9000));
    assert_eq!(label_table.get("my_word"), Some(0x9001));
    assert_eq!(label_table.get("my_long"), Some(0x9003));
    assert_eq!(label_table.get("my_array"), Some(0x9007));
    assert_eq!(label_table.get("my_ascii"), Some(0x900C));

    assert_eq!(label_table.get("start"), Some(0x5800));
    assert_eq!(label_table.get("label_2"), Some(0x5804));
    assert_eq!(label_table.get("label_3"), Some(0x5806));
    assert_eq!(label_table.get("label_4"), Some(0x580C));

    assert_eq!(label_table.len(), 9);
    assert_eq!(label_table.get("missing"), None);
    assert!(label_table.contains("start"));
    assert!(!label_table.contains("Start"));
}

#[test]
fn byte_word_long_advance_by_their_size() {
    let program = lines(&["a: .byte 1", "b: .word 2", "c: .long 3", "d:"]);
    let table = get_label_table(&program).unwrap();
    assert_eq!(DATA_BASE, 0x9000);
    assert_eq!(table.get("a"), Some(DATA_BASE));
    assert_eq!(table.get("b"), Some(DATA_BASE + 1));
    assert_eq!(table.get("c"), Some(DATA_BASE + 3));
    assert_eq!(table.get("d"), Some(DATA_BASE + 7));
}

#[test]
fn invalid_label_stops_resolution() {
    assert_eq!(get_label_table(&lines(&["1abc:"])).err(), Some(AsmError::InvalidLabel));
    assert_eq!(get_label_table(&lines(&["1abc: .byte 1"])).err(), Some(AsmError::InvalidLabel));
    assert_eq!(get_label_table(&lines(&["bad label: .byte 1"])).err(), Some(AsmError::InvalidLabel));
    assert_eq!(get_label_table(&lines(&[": .byte 1"])).err(), Some(AsmError::InvalidLabel));
    assert_eq!(get_label_table(&lines(&[":"])).err(), Some(AsmError::InvalidLabel));
    assert_eq!(get_label_table(&lines(&["a: b:"])).err(), Some(AsmError::InvalidLabel));
    assert_eq!(get_label_table(&lines(&[".data:"])).err(), Some(AsmError::InvalidLabel));
    assert_eq!(
        get_label_table(&lines(&["ok: .byte 1", ".code:", "fine: nop", "n\u{f6}: nop"])).err(),
        Some(AsmError::InvalidLabel)
    );
}

#[test]
fn unknown_directive_stops_resolution() {
    assert_eq!(get_label_table(&lines(&["x: .bad 70"])).err(), Some(AsmError::UnknownDirective));
    assert_eq!(get_label_table(&lines(&["nop"])).err(), Some(AsmError::UnknownDirective));
    assert_eq!(get_label_table(&lines(&[".asciiz hello"])).err(), Some(AsmError::UnterminatedText));
    assert!(get_label_table(&lines(&[".code:", ".bad 70"])).is_ok());
}

#[test]
fn sizes_without_reading_values() {
    let program = lines(&[
        "a: .array",
        "b: .array 1 2 999",
        "c: .byte",
        "d: .word zzz",
        "e: .asciiz ``",
        "f: .asciiz `\u{e9}`",
        "g:",
    ]);
    let table = get_label_table(&program).unwrap();
    assert_eq!(table.get("a"), Some(0x9000));
    assert_eq!(table.get("b"), Some(0x9000));
    assert_eq!(table.get("c"), Some(0x9003));
    assert_eq!(table.get("d"), Some(0x9004));
    assert_eq!(table.get("e"), Some(0x9006));
    assert_eq!(table.get("f"), Some(0x9007));
    assert_eq!(table.get("g"), Some(0x900A));
}

#[test]
fn code_addresses() {
    let program = lines(&[
        "   ",
        "",
        "  .code:  ",
        "first:",
        "second: MOVI ax, 1",
        "third: movi, ax, 1",
        "fourth: lbl_movi ax",
        "fifth: add ax, bx",
        "sixth:",
        "seventh: nop",
    ]);
    let table = get_label_table(&program).unwrap();
    assert_eq!(CODE_BASE, 0x5800);
    assert_eq!(table.get("first"), Some(0x5800));
    assert_eq!(table.get("second"), Some(0x5800));
    assert_eq!(table.get("third"), Some(0x5804));
    assert_eq!(table.get("fourth"), Some(0x5808));
    assert_eq!(table.get("fifth"), Some(0x580A));
    assert_eq!(table.get("sixth"), Some(0x580C));
    assert_eq!(table.get("seventh"), Some(0x580C));
}

#[test]
fn later_definition_wins() {
    let program = lines(&["twice: .byte 1", "twice: .byte 2", ".code:", "nop", "twice: nop"]);
    let table = get_label_table(&program).unwrap();
    assert_eq!(table.get("twice"), Some(0x5802));
    assert_eq!(table.len(), 1);
}

#[test]
fn empty_program_has_no_labels() {
    let table = get_label_table(&Vec::new()).unwrap();
    assert_eq!(table.len(), 0);
}

#[test]
fn table_insert_and_get() {
    let mut table = LabelTable::new();
    assert_eq!(table.get("a"), None);
    table.insert("a", 1);
    table.insert("b", 2);
    table.insert("a", 3);
    assert_eq!(table.get("a"), Some(3));
    assert_eq!(table.get("b"), Some(2));
    assert_eq!(table.len(), 2);
    assert!(table.contains("b"));
    assert!(!table.contains("c"));
}
