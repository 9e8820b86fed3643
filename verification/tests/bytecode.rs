use bytecode_compiler::ast::Literal;
use bytecode_compiler::bytecode::{Bytecode, Command, Instruction, Operand};
use bytecode_compiler::error::{CompilerError, Construct};
use bytecode_compiler::number::parse_plain_decimal;

fn copy(to: u8, from: u8) -> Command {
    Command::new(Instruction::Copy, vec![Operand::Register(to), Operand::Register(from)])
}

#[test]
fn appending_and_concatenating_keep_the_order() {
    let first = Bytecode::new().add(copy(1, 2)).add(copy(3, 4));
    let second = Bytecode::new().add(copy(5, 6));
    let both = first.clone().combine(second.clone());
    assert_eq!(both.commands, vec![copy(1, 2), copy(3, 4), copy(5, 6)]);
    assert_eq!(both.len(), 3);
    assert_eq!(second.combine(first).commands, vec![copy(5, 6), copy(1, 2), copy(3, 4)]);
    assert_eq!(Bytecode::new().combine(Bytecode::new()), Bytecode::new());
}

#[test]
fn empty_bytecode_is_empty() {
    assert!(Bytecode::new().is_empty());
    assert_eq!(Bytecode::new().len(), 0);
    assert!(!Bytecode::new().add(copy(0, 1)).is_empty());
}

#[test]
fn last_op_is_return_looks_at_the_last_command_only() {
    let ret = Command::new(Instruction::ReturnBytecodeFunc, vec![Operand::RegistersArray(vec![])]);
    assert!(!Bytecode::new().last_op_is_return());
    assert!(Bytecode::new().add(ret.clone()).last_op_is_return());
    assert!(Bytecode::new().add(copy(0, 1)).add(ret.clone()).last_op_is_return());
    assert!(!Bytecode::new().add(ret).add(copy(0, 1)).last_op_is_return());
}

#[test]
fn clones_are_equal() {
    let operands = vec![
        Operand::Register(1),
        Operand::RegistersArray(vec![1, 2, 3]),
        Operand::String("text".into()),
        Operand::FloatNum("1.5".into()),
        Operand::LongNum(-3),
        Operand::ShortNum(9),
        Operand::FunctionAddr(10),
        Operand::BranchAddr(20),
    ];
    for operand in &operands {
        assert_eq!(&operand.clone(), operand);
    }
    let command = Command::new(Instruction::CallFunc, operands);
    assert_eq!(command.clone(), command);
    let bytecode = Bytecode::new().add(command).add(copy(1, 2));
    assert_eq!(bytecode.clone(), bytecode);
}

#[test]
fn literals_become_operands() {
    assert_eq!(
        Operand::from_literal(&Literal::String("TestString".into())),
        Ok(Operand::String("TestString".into()))
    );
    assert_eq!(Operand::from_literal(&Literal::Number("1".into())), Ok(Operand::ShortNum(1)));
    assert_eq!(
        Operand::from_literal(&Literal::Null),
        Err(CompilerError::Unsupported(Construct::NullLiterals))
    );
    assert_eq!(
        Operand::from_literal(&Literal::Boolean(true)),
        Err(CompilerError::Unsupported(Construct::BooleanLiterals))
    );
    assert_eq!(
        Operand::from_literal(&Literal::RegEx),
        Err(CompilerError::Unsupported(Construct::RegExLiterals))
    );
    assert_eq!(
        Operand::from_literal(&Literal::Template),
        Err(CompilerError::Unsupported(Construct::TemplateLiterals))
    );
}

#[test]
fn numbers_are_sorted_by_size_and_form() {
    let cases: Vec<(&str, Operand)> = vec![
        ("0", Operand::ShortNum(0)),
        ("7", Operand::ShortNum(7)),
        ("255", Operand::ShortNum(255)),
        ("256", Operand::LongNum(256)),
        ("65536", Operand::LongNum(65536)),
        ("9223372036854775807", Operand::LongNum(i64::MAX)),
        ("9223372036854775808", Operand::FloatNum("9223372036854775808".into())),
        ("99999999999999999999999", Operand::FloatNum("99999999999999999999999".into())),
        ("1.5", Operand::FloatNum("1.5".into())),
        ("1e3", Operand::FloatNum("1e3".into())),
        ("0x10", Operand::FloatNum("0x10".into())),
        ("017", Operand::FloatNum("017".into())),
        ("00", Operand::FloatNum("00".into())),
        (".5", Operand::FloatNum(".5".into())),
        ("", Operand::FloatNum("".into())),
        ("١٢", Operand::FloatNum("١٢".into())),
    ];
    for (text, operand) in cases {
        assert_eq!(Operand::from_number(&text.to_string()), operand, "{}", text);
    }
}

#[test]
fn loads_follow_the_kind_of_operand() {
    assert_eq!(Operand::String("s".into()).get_assign_instr_type(), Some(Instruction::LoadString));
    assert_eq!(
        Operand::FloatNum("1.5".into()).get_assign_instr_type(),
        Some(Instruction::LoadFloatNum)
    );
    assert_eq!(Operand::LongNum(300).get_assign_instr_type(), Some(Instruction::LoadLongNum));
    assert_eq!(Operand::ShortNum(3).get_assign_instr_type(), Some(Instruction::LoadNum));
    assert_eq!(Operand::Register(3).get_assign_instr_type(), Some(Instruction::Copy));
    assert_eq!(Operand::RegistersArray(vec![3]).get_assign_instr_type(), None);
    assert_eq!(Operand::FunctionAddr(3).get_assign_instr_type(), None);
    assert_eq!(Operand::BranchAddr(3).get_assign_instr_type(), None);
}

#[test]
fn plain_decimals_are_read() {
    assert_eq!(parse_plain_decimal("0"), Some(0));
    assert_eq!(parse_plain_decimal("10"), Some(10));
    assert_eq!(parse_plain_decimal("1234567890"), Some(1234567890));
    assert_eq!(parse_plain_decimal("9223372036854775807"), Some(i64::MAX));
    assert_eq!(parse_plain_decimal("9223372036854775808"), None);
    assert_eq!(parse_plain_decimal("92233720368547758070"), None);
    assert_eq!(parse_plain_decimal(""), None);
    assert_eq!(parse_plain_decimal("01"), None);
    assert_eq!(parse_plain_decimal("-1"), None);
    assert_eq!(parse_plain_decimal("+1"), None);
    assert_eq!(parse_plain_decimal("1 "), None);
    assert_eq!(parse_plain_decimal("1a"), None);
    assert_eq!(parse_plain_decimal("1_000"), None);
}
