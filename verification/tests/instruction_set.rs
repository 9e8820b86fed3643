use bytecode_compiler::ast::{AssignmentOperator, BinaryOperator, UnaryOperator, UpdateOperator};
use bytecode_compiler::bytecode::{Command, Instruction, Operand};
use bytecode_compiler::error::{CompilerError, Construct};
use bytecode_compiler::instruction_set::{CommonLiteral, CommonLiteralRegs, InstructionSet};
use bytecode_compiler::scope::Scopes;

fn selector() -> InstructionSet {
    InstructionSet::default(&mut Scopes::new())
}

fn on_registers(instruction: Instruction, rd: u8, r0: u8, r1: u8) -> Command {
    Command::new(
        instruction,
        vec![Operand::Register(rd), Operand::Register(r0), Operand::Register(r1)],
    )
}

#[test]
fn common_literals_have_distinct_places() {
    assert_eq!(CommonLiteral::Num0.idx(), 0);
    assert_eq!(CommonLiteral::Num1.idx(), 1);
    assert_eq!(CommonLiteral::Void0.idx(), 2);
}

#[test]
fn common_literal_registers_come_from_the_back_of_the_pool() {
    let mut scopes = Scopes::new();
    let registers = CommonLiteralRegs::new(&mut scopes).unwrap();
    assert_eq!(registers.reg(&CommonLiteral::Num0), 254);
    assert_eq!(registers.reg(&CommonLiteral::Num1), 253);
    assert_eq!(registers.reg(&CommonLiteral::Void0), 252);
    assert_eq!(registers.clone().reg(&CommonLiteral::Num1), 253);
    // The front of the pool is untouched, and the three are gone from it.
    for expected in 0..252u16 {
        assert_eq!(scopes.reserve_register().unwrap(), expected as u8);
    }
    assert_eq!(scopes.reserve_register(), Err(CompilerError::RegistersExhausted));
}

#[test]
fn common_literal_registers_need_three_free_registers() {
    let mut scopes = Scopes::new();
    for _ in 0..253 {
        scopes.reserve_register().unwrap();
    }
    assert_eq!(
        CommonLiteralRegs::new(&mut scopes).map(|_| ()),
        Err(CompilerError::RegistersExhausted)
    );
    // The two registers that were left were taken by the attempt.
    assert_eq!(scopes.reserve_register(), Err(CompilerError::RegistersExhausted));
}

#[test]
fn selector_exposes_its_registers() {
    let isa = selector();
    assert_eq!(isa.common_literal_reg(&CommonLiteral::Num0), 254);
    assert_eq!(isa.common_lits().reg(&CommonLiteral::Void0), 252);
    assert_eq!(isa.clone().common_literal_reg(&CommonLiteral::Num1), 253);
}

#[test]
fn load_selection() {
    let isa = selector();
    let cases = vec![
        (Operand::String("s".into()), Instruction::LoadString),
        (Operand::FloatNum("1.5".into()), Instruction::LoadFloatNum),
        (Operand::LongNum(1 << 40), Instruction::LoadLongNum),
        (Operand::ShortNum(4), Instruction::LoadNum),
        (Operand::Register(8), Instruction::Copy),
    ];
    for (operand, instruction) in cases {
        assert_eq!(
            isa.load_op(3, operand.clone()),
            Command::new(instruction, vec![Operand::Register(3), operand])
        );
    }
}

#[test]
fn assignment_selection() {
    let isa = selector();
    let mapped = vec![
        (AssignmentOperator::Equal, Instruction::Copy),
        (AssignmentOperator::PlusEqual, Instruction::Add),
        (AssignmentOperator::MinusEqual, Instruction::Minus),
        (AssignmentOperator::TimesEqual, Instruction::Mul),
        (AssignmentOperator::DivEqual, Instruction::Div),
    ];
    for (operator, instruction) in mapped {
        assert!(isa.has_assignment_op(&operator));
        assert_eq!(isa.assignment_op(&operator, 1, 2), on_registers(instruction, 1, 1, 2));
    }
    let unmapped = vec![
        AssignmentOperator::ModEqual,
        AssignmentOperator::LeftShiftEqual,
        AssignmentOperator::RightShiftEqual,
        AssignmentOperator::UnsignedRightShiftEqual,
        AssignmentOperator::OrEqual,
        AssignmentOperator::XOrEqual,
        AssignmentOperator::AndEqual,
        AssignmentOperator::PowerOfEqual,
    ];
    for operator in unmapped {
        assert!(!isa.has_assignment_op(&operator));
    }
}

#[test]
fn update_selection() {
    let isa = selector();
    assert_eq!(
        isa.update_op(&UpdateOperator::Increment, 5),
        on_registers(Instruction::Add, 5, 5, 253)
    );
    assert_eq!(
        isa.update_op(&UpdateOperator::Decrement, 5),
        on_registers(Instruction::Minus, 5, 5, 253)
    );
}

#[test]
fn unary_selection() {
    let isa = selector();
    assert_eq!(
        isa.unary_op(&UnaryOperator::Minus, 5, 6),
        Ok(on_registers(Instruction::Minus, 5, 254, 6))
    );
    assert_eq!(
        isa.unary_op(&UnaryOperator::Plus, 5, 6),
        Ok(on_registers(Instruction::Add, 5, 254, 6))
    );
    assert_eq!(
        isa.unary_op(&UnaryOperator::Void, 5, 6),
        Err(CompilerError::Unsupported(Construct::VoidOperator))
    );
    for operator in
        vec![UnaryOperator::Not, UnaryOperator::Tilde, UnaryOperator::TypeOf, UnaryOperator::Delete]
    {
        assert_eq!(
            isa.unary_op(&operator, 5, 6),
            Err(CompilerError::Unsupported(Construct::UnaryOperation(operator)))
        );
    }
}

#[test]
fn binary_selection() {
    let isa = selector();
    let mapped = vec![
        (BinaryOperator::Equal, Instruction::CompEqual),
        (BinaryOperator::NotEqual, Instruction::CompNotEqual),
        (BinaryOperator::StrictEqual, Instruction::CompStrictEqual),
        (BinaryOperator::StrictNotEqual, Instruction::CompStrictNotEqual),
        (BinaryOperator::LessThan, Instruction::CompLessThan),
        (BinaryOperator::GreaterThan, Instruction::CompGreaterThan),
        (BinaryOperator::LessThanEqual, Instruction::CompLessThanEqual),
        (BinaryOperator::GreaterThanEqual, Instruction::CompGreaterThanEqual),
        (BinaryOperator::Plus, Instruction::Add),
        (BinaryOperator::Minus, Instruction::Minus),
        (BinaryOperator::Times, Instruction::Mul),
        (BinaryOperator::Over, Instruction::Div),
    ];
    for (operator, instruction) in mapped {
        assert_eq!(isa.binary_op(&operator, 1, 2, 3), Ok(on_registers(instruction, 1, 2, 3)));
    }
    let unmapped = vec![
        BinaryOperator::LeftShift,
        BinaryOperator::RightShift,
        BinaryOperator::UnsignedRightShift,
        BinaryOperator::Mod,
        BinaryOperator::Or,
        BinaryOperator::XOr,
        BinaryOperator::And,
        BinaryOperator::In,
        BinaryOperator::InstanceOf,
        BinaryOperator::PowerOf,
    ];
    for operator in unmapped {
        assert_eq!(
            isa.binary_op(&operator, 1, 2, 3),
            Err(CompilerError::Unsupported(Construct::BinaryOperation(operator)))
        );
    }
}
