use sim6_asm::error::AsmError;
use sim6_asm::repr::opcode::{Opcode, OperandClass, OPCODE_COUNT};

#[test]
fn codes_follow_the_table() {
    assert_eq!(Opcode::Nop.code(), 0);
    assert_eq!(Opcode::Add.code(), 1);
    assert_eq!(Opcode::Addc.code(), 3);
    assert_eq!(Opcode::In.code(), 19);
    assert_eq!(Opcode::MovI.code(), 22);
    assert_eq!(Opcode::Jcry.code(), 48);
    assert_eq!(Opcode::Load.code(), 56);
    assert_eq!(Opcode::Store.code(), 57);
    assert_eq!(OPCODE_COUNT, 58);
}

#[test]
fn from_code_inverts_code() {
    for code in 0..OPCODE_COUNT {
        let op = Opcode::from_code(code).unwrap();
        assert_eq!(op.code(), code);
    }
    assert_eq!(Opcode::from_code(58), None);
    assert_eq!(Opcode::from_code(63), None);
    assert_eq!(Opcode::from_code(u16::MAX), None);
}

#[test]
fn parse_reads_every_mnemonic_in_any_case() {
    for code in 0..OPCODE_COUNT {
        let op = Opcode::from_code(code).unwrap();
        let name = op.mnemonic();
        assert_eq!(Opcode::parse(name), Ok(op));
        assert_eq!(Opcode::parse(&name.to_uppercase()), Ok(op));
    }
    assert_eq!(Opcode::parse("mOvI"), Ok(Opcode::MovI));
    assert_eq!(Opcode::parse("PushA"), Ok(Opcode::PushA));
    assert_eq!(Opcode::MovI.mnemonic(), "movi");
    assert_eq!(Opcode::Jnzro.mnemonic(), "jnzro");
}

#[test]
fn opcode_parse_rejects_other_text() {
    for text in ["", "mov", "addd", "no p", "nop ", ".byte", "jmp", "pushx"] {
        assert_eq!(Opcode::parse(text), Err(AsmError::UnknownOpcode));
    }
}

#[test]
fn operand_classes() {
    assert_eq!(Opcode::Nop.operand_class(), OperandClass::NoOperand);
    assert_eq!(Opcode::Iret.operand_class(), OperandClass::NoOperand);
    assert_eq!(Opcode::Add.operand_class(), OperandClass::TwoRegister);
    assert_eq!(Opcode::Store.operand_class(), OperandClass::TwoRegister);
    assert_eq!(Opcode::Addc.operand_class(), OperandClass::OneRegister);
    assert_eq!(Opcode::Jcry.operand_class(), OperandClass::OneRegister);
    assert_eq!(Opcode::In.operand_class(), OperandClass::RegisterAndShortImmediate);
    assert_eq!(Opcode::Into.operand_class(), OperandClass::RegisterAndShortImmediate);
    assert_eq!(Opcode::MovI.operand_class(), OperandClass::RegisterAndLargeImmediate);
    let mut counts = [0usize; 5];
    for code in 0..OPCODE_COUNT {
        let slot = match Opcode::from_code(code).unwrap().operand_class() {
            OperandClass::NoOperand => 0,
            OperandClass::OneRegister => 1,
            OperandClass::TwoRegister => 2,
            OperandClass::RegisterAndShortImmediate => 3,
            OperandClass::RegisterAndLargeImmediate => 4,
        };
        counts[slot] += 1;
    }
    assert_eq!(counts, [11, 22, 20, 4, 1]);
}

#[test]
fn intrinsic_flags() {
    assert!(Opcode::Add.is_signed() && Opcode::Add.set_flags());
    assert!(!Opcode::Addc.is_signed() && Opcode::Addc.set_flags());
    assert!(!Opcode::Addu.is_signed() && Opcode::Addu.set_flags());
    assert!(Opcode::Div.is_signed() && Opcode::Div.set_flags());
    assert!(!Opcode::In.is_signed() && !Opcode::In.set_flags());
    assert!(!Opcode::MovI.is_signed() && !Opcode::MovI.set_flags());
    assert!(!Opcode::Nop.is_signed() && !Opcode::Nop.set_flags());
    assert!(!Opcode::Jump.is_signed() && !Opcode::Jump.set_flags());
}
