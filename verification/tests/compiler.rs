use bytecode_compiler::ast::{
    AssignmentExpr, AssignmentLeft, AssignmentOperator, CallExpr, Decl, Expr, Function,
    FunctionArg, Literal, MemberExpr, Pat, Program, ProgramPart, Stmt, UnaryExpr, UnaryOperator,
    UpdateExpr, UpdateOperator, VariableDecl, VariableKind,
};
use bytecode_compiler::bytecode::{Bytecode, Command, Instruction, Operand};
use bytecode_compiler::compiler::BytecodeCompiler;
use bytecode_compiler::error::{Advisory, CompilerError, Construct};
use bytecode_compiler::instruction_set::CommonLiteral;

fn ident(name: &str) -> Expr {
    Expr::Ident(name.into())
}

fn number(text: &str) -> Expr {
    Expr::Literal(Literal::Number(text.into()))
}

fn var(name: &str, init: Option<Expr>) -> ProgramPart {
    ProgramPart::Decl(Decl::Variable(
        VariableKind::Var,
        vec![VariableDecl { id: Pat::Identifier(name.into()), init }],
    ))
}

fn function(name: &str, params: Vec<&str>, body: Vec<ProgramPart>) -> Function {
    Function {
        id: Some(name.into()),
        params: params.into_iter().map(|p| FunctionArg::Pat(Pat::Identifier(p.into()))).collect(),
        body,
        generator: false,
        is_async: false,
    }
}

fn return_of(registers: Vec<u8>) -> Command {
    Command::new(Instruction::ReturnBytecodeFunc, vec![Operand::RegistersArray(registers)])
}

#[test]
fn test_bytecode_compile_var_decl() {
    assert_eq!(
        BytecodeCompiler::new()
            .compile_var_decl(
                &VariableKind::Var,
                &vec![VariableDecl { id: Pat::Identifier("testVar".into()), init: None }]
            )
            .unwrap(),
        Bytecode::new()
    );

    let mut test_expr_ident = BytecodeCompiler::new();
    let test_expr_ident_reg = test_expr_ident.add_decl("anotherVar".into()).unwrap();
    assert_eq!(
        test_expr_ident
            .compile_var_decl(
                &VariableKind::Var,
                &vec![VariableDecl {
                    id: Pat::Identifier("testVar".into()),
                    init: Some(Expr::Ident("anotherVar".into()))
                }]
            )
            .unwrap(),
        Bytecode::new().add(Command::new(
            Instruction::Copy,
            vec![
                Operand::Register(
                    test_expr_ident.scopes().get_var("testVar".into()).unwrap().register
                ),
                Operand::Register(test_expr_ident_reg)
            ]
        ))
    );

    let mut test_expr_str_lit = BytecodeCompiler::new();
    assert_eq!(
        test_expr_str_lit
            .compile_var_decl(
                &VariableKind::Var,
                &vec![VariableDecl {
                    id: Pat::Identifier("testVar".into()),
                    init: Some(Expr::Literal(Literal::String("TestString".into())))
                }]
            )
            .unwrap(),
        Bytecode::new().add(Command::new(
            Instruction::LoadString,
            vec![
                Operand::Register(
                    test_expr_str_lit.scopes().get_var("testVar".into()).unwrap().register
                ),
                Operand::String("TestString".into())
            ]
        ))
    );
}

#[test]
fn fresh_compiler_sets_aside_the_last_three_registers() {
    let compiler = BytecodeCompiler::new();
    assert_eq!(compiler.isa().common_literal_reg(&CommonLiteral::Num0), 254);
    assert_eq!(compiler.isa().common_literal_reg(&CommonLiteral::Num1), 253);
    assert_eq!(compiler.isa().common_literal_reg(&CommonLiteral::Void0), 252);
    assert_eq!(*compiler.scopes().get_throwaway_register().unwrap(), 0);
    assert!(compiler.functions().is_empty());
    assert!(compiler.advisories().is_empty());
}

#[test]
fn declaration_without_initializer_emits_nothing_and_binds_the_name() {
    let mut compiler = BytecodeCompiler::new();
    let script = Program::Script(vec![var("a", None)]);
    assert_eq!(compiler.compile(&script).unwrap(), Bytecode::new());
    assert_eq!(compiler.scopes().get_var("a").unwrap().register, 0);
}

#[test]
fn load_increment_return() {
    // var x = 1; ++x; return x;
    let mut compiler = BytecodeCompiler::new();
    let script = Program::Script(vec![
        var("x", Some(number("1"))),
        ProgramPart::Stmt(Stmt::Expr(Expr::Update(UpdateExpr {
            operator: UpdateOperator::Increment,
            argument: Box::new(ident("x")),
            prefix: true,
        }))),
        ProgramPart::Stmt(Stmt::Return(Some(ident("x")))),
    ]);
    let bytecode = compiler.compile(&script).unwrap();
    let x = compiler.scopes().get_var("x").unwrap().register;
    let one = compiler.isa().common_literal_reg(&CommonLiteral::Num1);
    assert_eq!(
        bytecode,
        Bytecode::new()
            .add(Command::new(Instruction::LoadNum, vec![Operand::Register(x), Operand::ShortNum(1)]))
            .add(Command::new(
                Instruction::Add,
                vec![Operand::Register(x), Operand::Register(x), Operand::Register(one)]
            ))
            .add(return_of(vec![x]))
    );
    assert_eq!((x, one), (0, 253));
}

#[test]
fn postfix_increment_is_rejected() {
    let mut compiler = BytecodeCompiler::new();
    let script = Program::Script(vec![
        var("i", None),
        ProgramPart::Stmt(Stmt::Expr(Expr::Update(UpdateExpr {
            operator: UpdateOperator::Increment,
            argument: Box::new(ident("i")),
            prefix: false,
        }))),
    ]);
    assert_eq!(
        compiler.compile(&script),
        Err(CompilerError::Unsupported(Construct::SuffixUpdateExpressions))
    );
}

#[test]
fn rejected_constructs_name_themselves() {
    let cases: Vec<(ProgramPart, Construct)> = vec![
        (ProgramPart::Dir, Construct::Directives),
        (ProgramPart::Decl(Decl::Class), Construct::ClassDeclarations),
        (ProgramPart::Decl(Decl::Import), Construct::ImportDeclarations),
        (ProgramPart::Decl(Decl::Export), Construct::ExportDeclarations),
        (ProgramPart::Stmt(Stmt::With), Construct::WithStatements),
        (ProgramPart::Stmt(Stmt::Debugger), Construct::DebuggerStatements),
        (ProgramPart::Stmt(Stmt::Throw), Construct::ThrowStatements),
        (ProgramPart::Stmt(Stmt::Try), Construct::TryStatements),
        (ProgramPart::Stmt(Stmt::ForIn), Construct::ForInStatements),
        (ProgramPart::Stmt(Stmt::ForOf), Construct::ForOfStatements),
        (ProgramPart::Stmt(Stmt::If), Construct::StatementType),
        (ProgramPart::Stmt(Stmt::While), Construct::StatementType),
        (ProgramPart::Stmt(Stmt::Expr(Expr::ArrowFunction)), Construct::ArrowFunctions),
        (ProgramPart::Stmt(Stmt::Expr(Expr::Function)), Construct::FunctionExpressions),
        (ProgramPart::Stmt(Stmt::Expr(Expr::Class)), Construct::ClassExpressions),
        (ProgramPart::Stmt(Stmt::Expr(Expr::Await)), Construct::AwaitExpressions),
        (ProgramPart::Stmt(Stmt::Expr(Expr::Yield)), Construct::YieldExpressions),
        (ProgramPart::Stmt(Stmt::Expr(Expr::Spread)), Construct::SpreadExpressions),
        (ProgramPart::Stmt(Stmt::Expr(Expr::Super)), Construct::SuperExpressions),
        (ProgramPart::Stmt(Stmt::Expr(Expr::TaggedTemplate)), Construct::TaggedTemplateExpressions),
        (ProgramPart::Stmt(Stmt::Expr(Expr::MetaProperty)), Construct::MetaProperties),
        (
            ProgramPart::Stmt(Stmt::Expr(Expr::ArrowParamPlaceHolder)),
            Construct::ArrowParameterPlaceholders,
        ),
        (ProgramPart::Stmt(Stmt::Expr(Expr::Binary)), Construct::ExpressionType),
        (ProgramPart::Stmt(Stmt::Expr(Expr::This)), Construct::ExpressionType),
        (
            ProgramPart::Decl(Decl::Variable(
                VariableKind::Let,
                vec![VariableDecl { id: Pat::Array, init: Some(ident("b")) }],
            )),
            Construct::ArrayPatterns,
        ),
        (
            ProgramPart::Decl(Decl::Variable(
                VariableKind::Var,
                vec![VariableDecl { id: Pat::Object, init: None }],
            )),
            Construct::ObjectPatterns,
        ),
        (
            ProgramPart::Decl(Decl::Variable(
                VariableKind::Var,
                vec![VariableDecl { id: Pat::RestElement, init: None }],
            )),
            Construct::RestElements,
        ),
        (
            ProgramPart::Decl(Decl::Variable(
                VariableKind::Var,
                vec![VariableDecl { id: Pat::Assignment, init: None }],
            )),
            Construct::AssignmentPatterns,
        ),
    ];
    for (part, construct) in cases {
        let mut compiler = BytecodeCompiler::new();
        let result = compiler.compile(&Program::Script(vec![part]));
        assert_eq!(result, Err(CompilerError::Unsupported(construct)));
        assert!(result.unwrap_err().is_unsupported());
    }
}

#[test]
fn modules_are_rejected() {
    let mut compiler = BytecodeCompiler::new();
    assert_eq!(
        compiler.compile(&Program::Mod(vec![var("a", None)])),
        Err(CompilerError::Unsupported(Construct::Modules))
    );
    assert!(compiler.scopes().get_var("a").is_err());
}

#[test]
fn first_error_stops_the_walk_and_keeps_earlier_bindings() {
    let mut compiler = BytecodeCompiler::new();
    let result = compiler.compile_var_decl(
        &VariableKind::Var,
        &vec![
            VariableDecl { id: Pat::Identifier("a".into()), init: None },
            VariableDecl { id: Pat::Array, init: None },
            VariableDecl { id: Pat::Identifier("c".into()), init: None },
        ],
    );
    assert_eq!(result, Err(CompilerError::Unsupported(Construct::ArrayPatterns)));
    assert_eq!(compiler.scopes().get_var("a").unwrap().register, 0);
    assert!(compiler.scopes().get_var("c").is_err());
    assert_eq!(*compiler.scopes().get_throwaway_register().unwrap(), 1);
}

#[test]
fn let_and_const_are_compiled_as_var_with_an_advisory() {
    let mut compiler = BytecodeCompiler::new();
    let declarators = vec![VariableDecl { id: Pat::Identifier("a".into()), init: Some(number("7")) }];
    let as_let = compiler.compile_var_decl(&VariableKind::Let, &declarators).unwrap();
    let as_const = compiler.compile_var_decl(&VariableKind::Const, &declarators).unwrap();
    let as_var = compiler.compile_var_decl(&VariableKind::Var, &declarators).unwrap();
    assert_eq!(
        as_let,
        Bytecode::new().add(Command::new(
            Instruction::LoadNum,
            vec![Operand::Register(0), Operand::ShortNum(7)]
        ))
    );
    assert_eq!(
        as_const,
        Bytecode::new().add(Command::new(
            Instruction::LoadNum,
            vec![Operand::Register(1), Operand::ShortNum(7)]
        ))
    );
    assert_eq!(
        as_var,
        Bytecode::new().add(Command::new(
            Instruction::LoadNum,
            vec![Operand::Register(2), Operand::ShortNum(7)]
        ))
    );
    assert_eq!(
        compiler.advisories(),
        &vec![Advisory::LetTreatedAsVar, Advisory::ConstTreatedAsVar]
    );
}

#[test]
fn undeclared_identifier_is_an_error() {
    let mut compiler = BytecodeCompiler::new();
    let script = Program::Script(vec![var("a", Some(ident("missing")))]);
    let error = compiler.compile(&script).unwrap_err();
    assert_eq!(error, CompilerError::UndeclaredIdentifier("missing".into()));
    assert!(!error.is_unsupported());
    // The register of `a` was taken before the initializer failed.
    assert_eq!(compiler.scopes().get_var("a").unwrap().register, 0);
}

#[test]
fn function_bodies_follow_an_exit() {
    // function f(a) { return a; }
    let mut compiler = BytecodeCompiler::new();
    let script = Program::Script(vec![ProgramPart::Decl(Decl::Function(function(
        "f",
        vec!["a"],
        vec![ProgramPart::Stmt(Stmt::Return(Some(ident("a"))))],
    )))]);
    let bytecode = compiler.compile(&script).unwrap();
    assert_eq!(
        bytecode,
        Bytecode::new().add(Command::new(Instruction::Exit, vec![])).add(return_of(vec![1]))
    );
    assert_eq!(compiler.functions().len(), 1);
    assert_eq!(compiler.functions()[0].arguments(), &vec![1u8]);
    assert_eq!(compiler.functions()[0].bytecode(), &Bytecode::new().add(return_of(vec![1])));
    assert_eq!(compiler.functions()[0].ast().as_ref().unwrap().id, Some("f".to_string()));
    // The name of the function stays bound; its parameter does not.
    assert_eq!(compiler.scopes().get_var("f").unwrap().register, 0);
    assert!(compiler.scopes().get_var("a").is_err());
}

#[test]
fn function_without_return_gets_one() {
    // function f() { var a = "s"; } function g() {}
    let mut compiler = BytecodeCompiler::new();
    let script = Program::Script(vec![
        ProgramPart::Decl(Decl::Function(function(
            "f",
            vec![],
            vec![var("a", Some(Expr::Literal(Literal::String("s".into()))))],
        ))),
        ProgramPart::Decl(Decl::Function(function("g", vec![], vec![]))),
    ]);
    let bytecode = compiler.compile(&script).unwrap();
    assert_eq!(
        bytecode,
        Bytecode::new()
            .add(Command::new(Instruction::Exit, vec![]))
            .add(Command::new(
                Instruction::LoadString,
                vec![Operand::Register(1), Operand::String("s".into())]
            ))
            .add(return_of(vec![]))
            .add(return_of(vec![]))
    );
}

#[test]
fn program_without_functions_has_no_exit() {
    let mut compiler = BytecodeCompiler::new();
    assert_eq!(compiler.compile(&Program::Script(vec![])).unwrap(), Bytecode::new());
    let mut compiler = BytecodeCompiler::new();
    assert_eq!(
        compiler
            .compile(&Program::Script(vec![ProgramPart::Stmt(Stmt::Empty), var("a", None)]))
            .unwrap(),
        Bytecode::new()
    );
}

#[test]
fn generator_and_async_functions_are_rejected() {
    let mut generator = function("f", vec![], vec![]);
    generator.generator = true;
    let mut compiler = BytecodeCompiler::new();
    assert_eq!(
        compiler.compile_func(&generator),
        Err(CompilerError::Unsupported(Construct::GeneratorAndAsyncFunctions))
    );
    let mut is_async = function("f", vec![], vec![]);
    is_async.is_async = true;
    assert_eq!(
        compiler.compile_func(&is_async),
        Err(CompilerError::Unsupported(Construct::GeneratorAndAsyncFunctions))
    );
    assert!(compiler.scopes().get_var("f").is_err());
}

#[test]
fn parameters_must_be_plain_names() {
    let mut compiler = BytecodeCompiler::new();
    let f = Function {
        id: Some("f".into()),
        params: vec![FunctionArg::Expr(ident("a")), FunctionArg::Pat(Pat::Object)],
        body: vec![],
        generator: false,
        is_async: false,
    };
    assert_eq!(
        compiler.compile_func(&f),
        Err(CompilerError::Unsupported(Construct::NonIdentifierParameters))
    );
    // The scope of the function was entered and is still open.
    assert_eq!(compiler.scopes().get_var("a").unwrap().register, 1);
}

#[test]
fn call_materializes_callee_then_arguments() {
    // var f; var a; f(a, "s", 2);
    let mut compiler = BytecodeCompiler::new();
    let script = Program::Script(vec![
        var("f", None),
        var("a", None),
        ProgramPart::Stmt(Stmt::Expr(Expr::Call(CallExpr {
            callee: Box::new(ident("f")),
            arguments: vec![ident("a"), Expr::Literal(Literal::String("s".into())), number("2")],
        }))),
    ]);
    assert_eq!(
        compiler.compile(&script).unwrap(),
        Bytecode::new()
            .add(Command::new(
                Instruction::LoadString,
                vec![Operand::Register(2), Operand::String("s".into())]
            ))
            .add(Command::new(Instruction::LoadNum, vec![Operand::Register(3), Operand::ShortNum(2)]))
            .add(Command::new(
                Instruction::CallFunc,
                vec![
                    Operand::Register(2),
                    Operand::Register(0),
                    Operand::RegistersArray(vec![1, 2, 3])
                ]
            ))
    );
}

#[test]
fn call_of_an_unbound_callee_uses_the_target_as_hint() {
    // ("s")(): the callee is lowered into the target of the call.
    let mut compiler = BytecodeCompiler::new();
    let call = CallExpr {
        callee: Box::new(Expr::Literal(Literal::String("s".into()))),
        arguments: vec![],
    };
    assert_eq!(
        compiler.compile_call_expr(&call, 9).unwrap(),
        Bytecode::new()
            .add(Command::new(
                Instruction::LoadString,
                vec![Operand::Register(9), Operand::String("s".into())]
            ))
            .add(Command::new(
                Instruction::CallFunc,
                vec![Operand::Register(9), Operand::Register(9), Operand::RegistersArray(vec![])]
            ))
    );
    assert_eq!(*compiler.scopes().get_throwaway_register().unwrap(), 0);
}

#[test]
fn member_access_reads_a_bare_property_as_a_string() {
    // var o; var p; o.p
    let mut compiler = BytecodeCompiler::new();
    compiler.add_decl("o".into()).unwrap();
    compiler.add_decl("p".into()).unwrap();
    let member = MemberExpr {
        object: Box::new(ident("o")),
        property: Box::new(ident("p")),
        computed: false,
    };
    assert_eq!(
        compiler.compile_member_expr(&member, 7).unwrap(),
        Bytecode::new()
            .add(Command::new(
                Instruction::LoadString,
                vec![Operand::Register(2), Operand::String("p".into())]
            ))
            .add(Command::new(
                Instruction::PropAccess,
                vec![Operand::Register(7), Operand::Register(0), Operand::Register(2)]
            ))
    );
}

#[test]
fn member_access_with_a_computed_property() {
    // o[1]
    let mut compiler = BytecodeCompiler::new();
    compiler.add_decl("o".into()).unwrap();
    let member = MemberExpr {
        object: Box::new(ident("o")),
        property: Box::new(number("1")),
        computed: true,
    };
    assert_eq!(
        compiler.compile_member_expr(&member, 7).unwrap(),
        Bytecode::new()
            .add(Command::new(Instruction::LoadNum, vec![Operand::Register(1), Operand::ShortNum(1)]))
            .add(Command::new(
                Instruction::PropAccess,
                vec![Operand::Register(7), Operand::Register(0), Operand::Register(1)]
            ))
    );
}

#[test]
fn plain_assignment_lowers_into_the_left_register() {
    // var a; var b; a = b; a = 300;
    let mut compiler = BytecodeCompiler::new();
    compiler.add_decl("a".into()).unwrap();
    compiler.add_decl("b".into()).unwrap();
    let assign = |right: Expr| AssignmentExpr {
        operator: AssignmentOperator::Equal,
        left: AssignmentLeft::Expr(Box::new(ident("a"))),
        right: Box::new(right),
    };
    assert_eq!(
        compiler.compile_assignment_expr(&assign(ident("b")), 9).unwrap(),
        Bytecode::new().add(Command::new(
            Instruction::Copy,
            vec![Operand::Register(0), Operand::Register(1)]
        ))
    );
    assert_eq!(
        compiler.compile_assignment_expr(&assign(number("300")), 9).unwrap(),
        Bytecode::new().add(Command::new(
            Instruction::LoadLongNum,
            vec![Operand::Register(0), Operand::LongNum(300)]
        ))
    );
}

#[test]
fn compound_assignment_combines_in_place() {
    let operators = vec![
        (AssignmentOperator::PlusEqual, Instruction::Add),
        (AssignmentOperator::MinusEqual, Instruction::Minus),
        (AssignmentOperator::TimesEqual, Instruction::Mul),
        (AssignmentOperator::DivEqual, Instruction::Div),
    ];
    for (operator, instruction) in operators {
        let mut compiler = BytecodeCompiler::new();
        compiler.add_decl("a".into()).unwrap();
        compiler.add_decl("b".into()).unwrap();
        let assign = AssignmentExpr {
            operator,
            left: AssignmentLeft::Expr(Box::new(ident("a"))),
            right: Box::new(ident("b")),
        };
        assert_eq!(
            compiler.compile_assignment_expr(&assign, 9).unwrap(),
            Bytecode::new().add(Command::new(
                instruction,
                vec![Operand::Register(0), Operand::Register(0), Operand::Register(1)]
            ))
        );
    }
}

#[test]
fn unmapped_compound_assignment_is_an_error() {
    let mut compiler = BytecodeCompiler::new();
    compiler.add_decl("a".into()).unwrap();
    let assign = AssignmentExpr {
        operator: AssignmentOperator::ModEqual,
        left: AssignmentLeft::Expr(Box::new(ident("a"))),
        right: Box::new(number("2")),
    };
    assert_eq!(
        compiler.compile_assignment_expr(&assign, 9),
        Err(CompilerError::Unsupported(Construct::AssignmentOperation(
            AssignmentOperator::ModEqual
        )))
    );
}

#[test]
fn assignment_to_a_pattern_is_rejected() {
    let mut compiler = BytecodeCompiler::new();
    let assign = AssignmentExpr {
        operator: AssignmentOperator::Equal,
        left: AssignmentLeft::Pat(Pat::Identifier("a".into())),
        right: Box::new(number("2")),
    };
    assert_eq!(
        compiler.compile_assignment_expr(&assign, 9),
        Err(CompilerError::Unsupported(Construct::PatternsInAssignments))
    );
}

#[test]
fn unary_signs_use_the_register_of_zero() {
    let mut compiler = BytecodeCompiler::new();
    compiler.add_decl("a".into()).unwrap();
    let unary = |operator: UnaryOperator, prefix: bool| UnaryExpr {
        operator,
        prefix,
        argument: Box::new(ident("a")),
    };
    assert_eq!(
        compiler.compile_unary_expr(&unary(UnaryOperator::Minus, true), 5).unwrap(),
        Bytecode::new().add(Command::new(
            Instruction::Minus,
            vec![Operand::Register(5), Operand::Register(254), Operand::Register(0)]
        ))
    );
    assert_eq!(
        compiler.compile_unary_expr(&unary(UnaryOperator::Plus, true), 5).unwrap(),
        Bytecode::new().add(Command::new(
            Instruction::Add,
            vec![Operand::Register(5), Operand::Register(254), Operand::Register(0)]
        ))
    );
    assert_eq!(
        compiler.compile_unary_expr(&unary(UnaryOperator::Void, true), 5),
        Err(CompilerError::Unsupported(Construct::VoidOperator))
    );
    assert_eq!(
        compiler.compile_unary_expr(&unary(UnaryOperator::Not, true), 5),
        Err(CompilerError::Unsupported(Construct::UnaryOperation(UnaryOperator::Not)))
    );
    assert_eq!(
        compiler.compile_unary_expr(&unary(UnaryOperator::Minus, false), 5),
        Err(CompilerError::Unsupported(Construct::SuffixUnaryExpressions))
    );
}

#[test]
fn decrement_subtracts_the_register_of_one() {
    let mut compiler = BytecodeCompiler::new();
    compiler.add_decl("a".into()).unwrap();
    let update = UpdateExpr {
        operator: UpdateOperator::Decrement,
        argument: Box::new(ident("a")),
        prefix: true,
    };
    assert_eq!(
        compiler.compile_update_expr(&update, 5).unwrap(),
        Bytecode::new().add(Command::new(
            Instruction::Minus,
            vec![Operand::Register(0), Operand::Register(0), Operand::Register(253)]
        ))
    );
}

#[test]
fn expression_statement_uses_the_throwaway_register() {
    // "s"; var a;
    let mut compiler = BytecodeCompiler::new();
    let script = Program::Script(vec![
        ProgramPart::Stmt(Stmt::Expr(Expr::Literal(Literal::String("s".into())))),
        var("a", None),
    ]);
    assert_eq!(
        compiler.compile(&script).unwrap(),
        Bytecode::new().add(Command::new(
            Instruction::LoadString,
            vec![Operand::Register(0), Operand::String("s".into())]
        ))
    );
    // The throwaway register was not consumed.
    assert_eq!(compiler.scopes().get_var("a").unwrap().register, 0);
}

#[test]
fn block_does_not_open_a_scope() {
    let mut compiler = BytecodeCompiler::new();
    let script = Program::Script(vec![ProgramPart::Stmt(Stmt::Block(vec![var("a", None)]))]);
    assert_eq!(compiler.compile(&script).unwrap(), Bytecode::new());
    assert_eq!(compiler.scopes().get_var("a").unwrap().register, 0);
}

#[test]
fn return_without_value() {
    let mut compiler = BytecodeCompiler::new();
    assert_eq!(compiler.compile_return_stmt(&None).unwrap(), Bytecode::new().add(return_of(vec![])));
    assert_eq!(
        compiler.compile_return_stmt(&Some(number("5"))).unwrap(),
        Bytecode::new()
            .add(Command::new(Instruction::LoadNum, vec![Operand::Register(0), Operand::ShortNum(5)]))
            .add(return_of(vec![0]))
    );
}

#[test]
fn two_fresh_compilers_give_the_same_bytecode() {
    let script = Program::Script(vec![
        var("x", Some(number("1"))),
        ProgramPart::Decl(Decl::Function(function(
            "f",
            vec!["a", "b"],
            vec![
                var("c", Some(ident("a"))),
                ProgramPart::Stmt(Stmt::Return(Some(ident("c")))),
            ],
        ))),
        ProgramPart::Stmt(Stmt::Expr(Expr::Call(CallExpr {
            callee: Box::new(ident("f")),
            arguments: vec![ident("x"), number("2.5")],
        }))),
    ]);
    let first = BytecodeCompiler::new().compile(&script).unwrap();
    let second = BytecodeCompiler::new().compile(&script).unwrap();
    assert_eq!(first, second);
    assert_eq!(first.len(), 6);
}

#[test]
fn registers_run_out() {
    let mut compiler = BytecodeCompiler::new();
    for i in 0..252 {
        assert_eq!(compiler.add_decl(format!("v{}", i)).unwrap(), i as u8);
    }
    assert_eq!(compiler.add_decl("one_too_many".into()), Err(CompilerError::RegistersExhausted));
    assert_eq!(
        compiler.compile(&Program::Script(vec![ProgramPart::Stmt(Stmt::Expr(ident("v0")))])),
        Err(CompilerError::RegistersExhausted)
    );
}

#[test]
fn a_copy_of_the_compiler_compiles_alike() {
    let mut compiler = BytecodeCompiler::new();
    compiler
        .compile(&Program::Script(vec![
            var("x", None),
            ProgramPart::Decl(Decl::Function(function("f", vec![], vec![]))),
        ]))
        .unwrap();
    let mut copy = compiler.clone();
    let more = Program::Script(vec![var("y", Some(ident("x")))]);
    assert_eq!(compiler.compile(&more), copy.compile(&more));
    assert_eq!(copy.functions().len(), 1);
    assert_eq!(copy.scopes().get_var("y").unwrap().register, 2);
}

#[test]
fn syntax_trees_can_be_copied() {
    let script = Program::Script(vec![
        var("x", Some(number("1"))),
        ProgramPart::Decl(Decl::Function(function(
            "f",
            vec!["a"],
            vec![ProgramPart::Stmt(Stmt::Block(vec![ProgramPart::Stmt(Stmt::Return(Some(
                Expr::Member(MemberExpr {
                    object: Box::new(ident("a")),
                    property: Box::new(ident("length")),
                    computed: false,
                }),
            )))]))],
        ))),
        ProgramPart::Stmt(Stmt::Expr(Expr::Assignment(AssignmentExpr {
            operator: AssignmentOperator::PlusEqual,
            left: AssignmentLeft::Expr(Box::new(ident("x"))),
            right: Box::new(Expr::Unary(UnaryExpr {
                operator: UnaryOperator::Minus,
                prefix: true,
                argument: Box::new(Expr::Call(CallExpr {
                    callee: Box::new(ident("f")),
                    arguments: vec![Expr::Literal(Literal::String("s".into())), Expr::This],
                })),
            })),
        }))),
    ]);
    assert_eq!(script.clone(), script);
}

#[test]
fn stored_function_keeps_its_declaration() {
    let declaration =
        function("f", vec!["a"], vec![ProgramPart::Stmt(Stmt::Return(Some(ident("a"))))]);
    let mut compiler = BytecodeCompiler::new();
    compiler.compile_func(&declaration).unwrap();
    assert_eq!(compiler.functions()[0].ast(), &Some(declaration));
}
