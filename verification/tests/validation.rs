use sim6_asm::assembler::process_line;
use sim6_asm::error::AsmError;
use sim6_asm::label_table::LabelTable;
use sim6_asm::repr::instruction::{Instruction, Operand};
use sim6_asm::repr::opcode::{Opcode, OperandClass, OPCODE_COUNT};
use sim6_asm::repr::register::Register;
use sim6_asm::validation::{
    validate_instruction, validate_label, validate_register_operand_pair, ValidationError,
};

#[test]
fn test_valid_nn_instrs() {
    process_line("  NOP", &LabelTable::new(), &mut false).unwrap();
    process_line("my_label: POPA", &LabelTable::new(), &mut false).unwrap();
    process_line("pusha", &LabelTable::new(), &mut false).unwrap();
    process_line("ret", &LabelTable::new(), &mut false).unwrap();
    process_line("scry", &LabelTable::new(), &mut false).unwrap();
    process_line("CcRy", &LabelTable::new(), &mut false).unwrap();
    process_line("__hello:      Eitr    ", &LabelTable::new(), &mut false).unwrap();
    process_line("Ditr", &LabelTable::new(), &mut false).unwrap();
    process_line("Iret", &LabelTable::new(), &mut false).unwrap();
}

#[test]
fn test_valid_rn_instrs() {
    process_line("ADDC  ax", &LabelTable::new(), &mut false).unwrap();
    process_line("inc bl", &LabelTable::new(), &mut false).unwrap();
    process_line("Subb bh", &LabelTable::new(), &mut false).unwrap();
    process_line("Dec    dx", &LabelTable::new(), &mut false).unwrap();
    process_line("label:  Neg DX", &LabelTable::new(), &mut false).unwrap();
    process_line("_l_a_b_e_l: Push  aH", &LabelTable::new(), &mut false).unwrap();
    process_line("Pop Ah", &LabelTable::new(), &mut false).unwrap();
    process_line("Csign        ah", &LabelTable::new(), &mut false).unwrap();
    process_line("CLEAR rp", &LabelTable::new(), &mut false).unwrap();
}

#[test]
fn test_valid_ri_instrs() {
    process_line("  in rp, 10", &LabelTable::new(), &mut false).unwrap();
    process_line("out ax 10", &LabelTable::new(), &mut false).unwrap();
    process_line("InTr rp, 0", &LabelTable::new(), &mut false).unwrap();
    process_line("lbl: Into, sp,,, 0", &LabelTable::new(), &mut false).unwrap();
}

#[test]
fn test_valid_rl_instrs() {
    process_line("mOvi ax   700", &LabelTable::new(), &mut false).unwrap();
    process_line("mOvi ax   0", &LabelTable::new(), &mut false).unwrap();
}

#[test]
fn test_valid_rr_instrs() {
    process_line("ADD ax bx", &LabelTable::new(), &mut false).unwrap();
    process_line("sub ax bx", &LabelTable::new(), &mut false).unwrap();
    process_line("ADDu ax bx", &LabelTable::new(), &mut false).unwrap();
    process_line("subu ax bx", &LabelTable::new(), &mut false).unwrap();
    process_line("move ah bh", &LabelTable::new(), &mut false).unwrap();
    process_line("And al bl", &LabelTable::new(), &mut false).unwrap();
    process_line("SRa al bl", &LabelTable::new(), &mut false).unwrap();
    process_line("Load ax bx", &LabelTable::new(), &mut false).unwrap();
    process_line("Store ax bx", &LabelTable::new(), &mut false).unwrap();
    process_line("Mul ax bx", &LabelTable::new(), &mut false).unwrap();
    process_line("mulu ax bx", &LabelTable::new(), &mut false).unwrap();
    process_line("div ax, bx", &LabelTable::new(), &mut false).unwrap();
    process_line("divu ax, bx", &LabelTable::new(), &mut false).unwrap();
}

#[test]
#[should_panic]
fn test_nn_with_reg() {
    process_line("nop ax", &LabelTable::new(), &mut false).unwrap();
}

#[test]
#[should_panic]
fn test_rr_with_one_reg() {
    process_line("add ax", &LabelTable::new(), &mut false).unwrap();
}

#[test]
#[should_panic]
fn test_rr_with_imm() {
    process_line("add ax 10", &LabelTable::new(), &mut false).unwrap();
}

#[test]
#[should_panic]
fn test_rn_with_two_reg() {
    process_line("addc ax sp", &LabelTable::new(), &mut false).unwrap();
}

#[test]
#[should_panic]
fn test_rn_with_imm() {
    process_line("addc 5", &LabelTable::new(), &mut false).unwrap();
}

#[test]
#[should_panic]
fn test_ri_with_no_imm() {
    process_line("out ax", &LabelTable::new(), &mut false).unwrap();
}

#[test]
#[should_panic]
fn test_ri_with_two_reg() {
    process_line("in ax sp", &LabelTable::new(), &mut false).unwrap();
}

#[test]
#[should_panic]
fn test_rl_with_two_reg() {
    process_line("movi ax sp", &LabelTable::new(), &mut false).unwrap();
}

#[test]
#[should_panic]
fn test_rl_with_no_reg() {
    process_line("addc 1000", &LabelTable::new(), &mut false).unwrap();
}

#[test]
#[should_panic]
fn test_mixed_high_low_reg() {
    process_line("add ah, bl", &LabelTable::new(), &mut false).unwrap();
}

#[test]
#[should_panic]
fn test_mixed_size_reg() {
    process_line("add ax, bl", &LabelTable::new(), &mut false).unwrap();
}

#[test]
#[should_panic]
fn test_short_operand_overflow() {
    process_line("in ax 32", &LabelTable::new(), &mut false).unwrap();
}

#[test]
#[should_panic]
fn test_long_operand_overflow() {
    process_line("movi ax 65536", &LabelTable::new(), &mut false).unwrap();
}

#[test]
fn test_valid_labels() {
    validate_label("label").unwrap();
    validate_label("__label").unwrap();
    validate_label("__abc__123").unwrap();
    validate_label("_").unwrap();
    validate_label("a").unwrap();
}

#[test]
#[should_panic]
fn label_starts_with_digit() {
    validate_label("123").unwrap();
}

#[test]
#[should_panic]
fn label_contains_symbol() {
    validate_label("l@bel").unwrap();
}

#[test]
#[should_panic]
fn label_contains_space() {
    validate_label("hello world").unwrap();
}

#[test]
#[should_panic]
fn label_contains_non_ascii() {
    validate_label("a\u{2013}\u{eb}cd").unwrap();
}

#[test]
fn invalid_labels_give_invalid_label() {
    for label in ["", "1abc", "123", "l@bel", "hello world", "a\u{2013}\u{eb}cd", "a-b", "a:", ".code", "\u{e9}t\u{e9}"] {
        assert_eq!(validate_label(label), Err(ValidationError::InvalidLabel));
    }
    for label in ["Z", "z9", "_9", "A_b_C_0"] {
        assert_eq!(validate_label(label), Ok(()));
    }
}

fn instr(opcode: Opcode, a: Operand, b: Operand) -> Instruction {
    Instruction::new(opcode, a, b)
}

fn reg(r: Register) -> Operand {
    Operand::Register(r)
}

#[test]
fn no_operand_class_takes_no_operand() {
    let others = [
        reg(Register::Ax),
        reg(Register::Al),
        reg(Register::Ah),
        reg(Register::Sp),
        reg(Register::Pc),
        reg(Register::St),
        Operand::ShortImmediate(0),
        Operand::LargeImmediate(0),
    ];
    let mut seen = 0;
    for code in 0..OPCODE_COUNT {
        let opcode = Opcode::from_code(code).unwrap();
        if opcode.operand_class() != OperandClass::NoOperand {
            continue;
        }
        seen += 1;
        let plain = instr(opcode, reg(Register::Null), reg(Register::Null));
        assert_eq!(plain.register_code(), 0);
        assert_eq!(validate_instruction(&plain), Ok(()));
        for other in others {
            assert!(validate_instruction(&instr(opcode, reg(Register::Null), other)).is_err());
            if let Operand::Register(_) = other {
                assert!(validate_instruction(&instr(opcode, other, reg(Register::Null))).is_err());
                assert!(validate_instruction(&instr(opcode, other, other)).is_err());
            }
        }
        let mut tagged = plain;
        tagged.high = true;
        assert_eq!(validate_instruction(&tagged), Err(ValidationError::InvalidRegisterCode));
        let mut immediate_first = plain;
        immediate_first.operand_a = Operand::ShortImmediate(1);
        assert_eq!(
            validate_instruction(&immediate_first),
            Err(ValidationError::OperandNotRegister)
        );
    }
    assert_eq!(seen, 11);
}

#[test]
fn every_validation_error() {
    let null = reg(Register::Null);
    assert_eq!(
        validate_instruction(&instr(Opcode::Nop, reg(Register::Ax), null)),
        Err(ValidationError::InvalidRegisterCode)
    );
    assert_eq!(
        validate_instruction(&instr(Opcode::Nop, reg(Register::Pc), null)),
        Err(ValidationError::RegisterNotNone)
    );
    assert_eq!(
        validate_instruction(&instr(Opcode::Nop, null, reg(Register::St))),
        Err(ValidationError::RegisterNotNone)
    );
    assert_eq!(
        validate_instruction(&instr(Opcode::Nop, null, Operand::ShortImmediate(1))),
        Err(ValidationError::OperandNotRegister)
    );
    assert_eq!(
        validate_instruction(&instr(Opcode::Add, reg(Register::Ah), reg(Register::Bl))),
        Err(ValidationError::MixedRegisterTypes)
    );
    assert_eq!(
        validate_instruction(&instr(Opcode::Add, reg(Register::Al), reg(Register::Bh))),
        Err(ValidationError::MixedRegisterTypes)
    );
    assert_eq!(
        validate_instruction(&instr(Opcode::Add, reg(Register::Ax), reg(Register::Bl))),
        Err(ValidationError::InvalidRegisterCode)
    );
    assert_eq!(
        validate_instruction(&instr(Opcode::Add, reg(Register::Ax), Operand::ShortImmediate(1))),
        Err(ValidationError::InvalidRegisterCode)
    );
    assert_eq!(
        validate_instruction(&instr(Opcode::Inc, null, null)),
        Err(ValidationError::RegisterIsNone)
    );
    assert_eq!(
        validate_instruction(&instr(Opcode::Inc, reg(Register::Ax), reg(Register::Bx))),
        Err(ValidationError::RegisterNotNone)
    );
    assert_eq!(
        validate_instruction(&instr(Opcode::Inc, reg(Register::Ax), Operand::LargeImmediate(1))),
        Err(ValidationError::OperandNotRegister)
    );
    assert_eq!(
        validate_instruction(&instr(Opcode::In, reg(Register::Ax), null)),
        Err(ValidationError::OperandNotShortImmediate)
    );
    assert_eq!(
        validate_instruction(&instr(Opcode::In, reg(Register::Ax), Operand::LargeImmediate(1))),
        Err(ValidationError::OperandNotShortImmediate)
    );
    assert_eq!(
        validate_instruction(&instr(Opcode::In, reg(Register::Ax), Operand::ShortImmediate(32))),
        Err(ValidationError::ImmediateTooLarge)
    );
    assert_eq!(
        validate_instruction(&instr(Opcode::In, reg(Register::Ax), Operand::ShortImmediate(31))),
        Ok(())
    );
    assert_eq!(
        validate_instruction(&instr(Opcode::MovI, reg(Register::Ax), Operand::ShortImmediate(1))),
        Err(ValidationError::OperandNotLargeImmediate)
    );
    assert_eq!(
        validate_instruction(&instr(Opcode::MovI, reg(Register::Ax), null)),
        Err(ValidationError::OperandNotLargeImmediate)
    );
    assert_eq!(
        validate_instruction(&instr(Opcode::MovI, reg(Register::Ax), Operand::LargeImmediate(0xFFFF))),
        Ok(())
    );
    let mut broken = instr(Opcode::MovI, reg(Register::Ax), Operand::LargeImmediate(1));
    broken.operand_a = Operand::LargeImmediate(2);
    assert_eq!(validate_instruction(&broken), Err(ValidationError::OperandNotRegister));
    let mut broken = instr(Opcode::In, reg(Register::Ax), Operand::ShortImmediate(1));
    broken.operand_a = Operand::ShortImmediate(2);
    assert_eq!(validate_instruction(&broken), Err(ValidationError::OperandNotRegister));
}

#[test]
fn register_pairs() {
    let pair = |a, b| validate_register_operand_pair(&a, &b);
    assert_eq!(pair(reg(Register::Ax), reg(Register::Sp)), Ok(()));
    assert_eq!(pair(reg(Register::Rp), reg(Register::Dx)), Ok(()));
    assert_eq!(pair(reg(Register::Ah), reg(Register::Dh)), Ok(()));
    assert_eq!(pair(reg(Register::Cl), reg(Register::Bl)), Ok(()));
    assert_eq!(pair(reg(Register::Ax), reg(Register::Bl)), Err(ValidationError::MixedRegisterTypes));
    assert_eq!(pair(reg(Register::Ah), reg(Register::Bl)), Err(ValidationError::MixedRegisterTypes));
    assert_eq!(pair(reg(Register::Al), reg(Register::Bx)), Err(ValidationError::MixedRegisterTypes));
    assert_eq!(
        pair(reg(Register::Ax), reg(Register::Null)),
        Err(ValidationError::MixedRegisterTypes)
    );
    assert_eq!(pair(reg(Register::Ax), reg(Register::Pc)), Err(ValidationError::MixedRegisterTypes));
    assert_eq!(pair(reg(Register::Null), reg(Register::Ax)), Err(ValidationError::RegisterIsNone));
    assert_eq!(pair(reg(Register::Pc), reg(Register::Ax)), Err(ValidationError::RegisterIsNone));
    assert_eq!(pair(reg(Register::St), reg(Register::St)), Err(ValidationError::RegisterIsNone));
    assert_eq!(
        pair(Operand::ShortImmediate(1), reg(Register::Ax)),
        Err(ValidationError::OperandNotRegister)
    );
    assert_eq!(
        pair(reg(Register::Ax), Operand::LargeImmediate(1)),
        Err(ValidationError::OperandNotRegister)
    );
}

#[test]
fn validation_errors_have_kinds() {
    assert_eq!(ValidationError::InvalidRegisterCode.kind(), AsmError::InvalidRegisterCode);
    assert_eq!(ValidationError::MixedRegisterTypes.kind(), AsmError::InvalidRegisterCode);
    assert_eq!(ValidationError::RegisterNotNone.kind(), AsmError::InvalidRegisterOperand);
    assert_eq!(ValidationError::RegisterIsNone.kind(), AsmError::InvalidRegisterOperand);
    assert_eq!(ValidationError::OperandNotRegister.kind(), AsmError::InvalidOperandShape);
    assert_eq!(ValidationError::OperandNotShortImmediate.kind(), AsmError::InvalidOperandShape);
    assert_eq!(ValidationError::OperandNotLargeImmediate.kind(), AsmError::InvalidOperandShape);
    assert_eq!(ValidationError::ImmediateTooLarge.kind(), AsmError::ImmediateTooLarge);
    assert_eq!(ValidationError::InvalidLabel.kind(), AsmError::InvalidLabel);
}

#[test]
fn one_register_class_accepts_the_program_counter() {
    assert_eq!(
        validate_instruction(&instr(Opcode::Jump, reg(Register::Pc), reg(Register::Null))),
        Ok(())
    );
}

#[test]
fn validation_errors_have_messages() {
    assert_eq!(ValidationError::ImmediateTooLarge.message(), "the immediate is too large");
    assert_eq!(ValidationError::InvalidLabel.message(), "the label is in an invalid format");
    assert_eq!(ValidationError::RegisterIsNone.message(), "the register must not be none");
}
