//! What holds of the lowering of declarations, of rejected constructs and
//! of whole programs.

use vstd::prelude::*;
use crate::ast::VariableKind;
use crate::ast_view::{
    DeclView, ExprView, FunctionView, LiteralView, PatView, ProgramPartView, ProgramView,
    StmtView, UpdateExprView, VariableDeclView,
};
use crate::bytecode::{ends_with_return, CommandView, Instruction, OperandView};
use crate::error::{unsupported, CompilerErrorView, Construct};
use crate::lowering::{
    assemble, bare_command, compile_program, function_code, kind_advisory, lower_decl,
    lower_declarator, lower_declarators, lower_expr, lower_function, lower_part, lower_parts,
    lower_stmt, lower_var_decl, CompilerModel, FunctionModel,
};
use crate::scope::Register;
use crate::scope_laws::lemma_declared_name_resolves;

verus! {

/// Whether no declarator from position `from` on has an initializer.
pub open spec fn without_initializers(declarators: Seq<VariableDeclView>, from: int) -> bool {
    forall|i: int| from <= i < declarators.len() ==> (#[trigger] declarators[i]).init is None
}

/// A name that resolves keeps resolving while declarators without
/// initializers are lowered.
proof fn lemma_bound_name_stays_bound(
    c: CompilerModel,
    declarators: Seq<VariableDeclView>,
    from: int,
    name: Seq<char>,
)
    requires
        0 <= from,
        without_initializers(declarators, from),
        lower_declarators(c, declarators, from).1 is Ok,
        c.scopes.get_var(name) is Ok,
    ensures
        lower_declarators(c, declarators, from).0.scopes.get_var(name) is Ok,
    decreases declarators.len() - from,
{
    if from < declarators.len() {
        let declarator = declarators[from];
        assert(declarator.init is None);
        let c1 = lower_declarator(c, declarator).0;
        match declarator.id {
            PatView::Identifier(declared) => {
                lemma_declared_name_resolves(c.scopes, declared, name);
                lemma_bound_name_stays_bound(c1, declarators, from + 1, name);
            },
            _ => {},
        }
    }
}

/// Lowering declarators without initializers emits nothing, and each of
/// their names resolves afterwards.
proof fn lemma_declarators_without_initializers(
    c: CompilerModel,
    declarators: Seq<VariableDeclView>,
    from: int,
    at: int,
)
    requires
        0 <= from <= at < declarators.len(),
        without_initializers(declarators, from),
        lower_declarators(c, declarators, from).1 is Ok,
    ensures
        lower_declarators(c, declarators, from).1 == Ok::<Seq<CommandView>, CompilerErrorView>(
            Seq::empty(),
        ),
        declarators[at].id is Identifier,
        lower_declarators(c, declarators, from).0.scopes.get_var(
            declarators[at].id->Identifier_0,
        ) is Ok,
    decreases declarators.len() - from,
{
    let declarator = declarators[from];
    assert(declarator.init is None);
    let c1 = lower_declarator(c, declarator).0;
    match declarator.id {
        PatView::Identifier(declared) => {
            lemma_declared_name_resolves(c.scopes, declared, declared);
            if from + 1 < declarators.len() {
                if at == from {
                    lemma_declarators_without_initializers(c1, declarators, from + 1, from + 1);
                    lemma_bound_name_stays_bound(c1, declarators, from + 1, declared);
                } else {
                    lemma_declarators_without_initializers(c1, declarators, from + 1, at);
                }
            }
            let rest = lower_declarators(c1, declarators, from + 1);
            assert(Seq::<CommandView>::empty() + rest.1->Ok_0 =~= rest.1->Ok_0);
        },
        _ => {},
    }
}

/// A variable declaration that is accepted and has no initializers lowers
/// to no command at all, and every name that it declares resolves
/// afterwards.
pub proof fn lemma_declaration_without_initializers(
    c: CompilerModel,
    kind: VariableKind,
    declarators: Seq<VariableDeclView>,
    at: int,
)
    requires
        without_initializers(declarators, 0),
        lower_var_decl(c, kind, declarators).1 is Ok,
        0 <= at < declarators.len(),
    ensures
        lower_var_decl(c, kind, declarators).1 == Ok::<Seq<CommandView>, CompilerErrorView>(
            Seq::empty(),
        ),
        declarators[at].id is Identifier,
        lower_var_decl(c, kind, declarators).0.scopes.get_var(
            declarators[at].id->Identifier_0,
        ) is Ok,
{
    let started = CompilerModel {
        advisories: c.advisories + kind_advisory(kind),
        ..c
    };
    lemma_declarators_without_initializers(started, declarators, 0, at);
}

/// `var a;` alone: no command, and `a` resolves to the register that was
/// next in the pool.
pub proof fn lemma_single_declaration_without_initializer(
    c: CompilerModel,
    kind: VariableKind,
    declarators: Seq<VariableDeclView>,
)
    requires
        declarators.len() == 1,
        declarators[0].id is Identifier,
        declarators[0].init is None,
        lower_var_decl(c, kind, declarators).1 is Ok,
    ensures
        lower_var_decl(c, kind, declarators).1 == Ok::<Seq<CommandView>, CompilerErrorView>(
            Seq::empty(),
        ),
        lower_var_decl(c, kind, declarators).0.scopes.get_var(declarators[0].id->Identifier_0)
            == Ok::<Register, CompilerErrorView>(c.scopes.free.first()),
{
    reveal_with_fuel(lower_declarators, 3);
    let name = declarators[0].id->Identifier_0;
    lemma_declared_name_resolves(c.scopes, name, name);
    assert(Seq::<CommandView>::empty() + Seq::<CommandView>::empty() =~= Seq::<
        CommandView,
    >::empty());
}

/// `var a = b;` alone, where `b` resolves: exactly one copy, from the
/// register of `b` into the register of `a`, both as they resolve
/// afterwards. The register of `a` is the one that was next in the pool;
/// where `b` is another name than `a`, its register is the one that it had
/// before.
pub proof fn lemma_declaration_initialized_by_name(
    c: CompilerModel,
    kind: VariableKind,
    declarators: Seq<VariableDeclView>,
)
    requires
        declarators.len() == 1,
        declarators[0].id is Identifier,
        declarators[0].init matches Some(ExprView::Ident(_)),
        c.scopes.get_var(declarators[0].init->Some_0->Ident_0) is Ok,
        lower_var_decl(c, kind, declarators).1 is Ok,
    ensures
        ({
            let a = declarators[0].id->Identifier_0;
            let b = declarators[0].init->Some_0->Ident_0;
            let (after, code) = lower_var_decl(c, kind, declarators);
            &&& after.scopes.get_var(a) is Ok
            &&& after.scopes.get_var(b) is Ok
            &&& after.scopes.get_var(a)->Ok_0 == c.scopes.free.first()
            &&& a != b ==> after.scopes.get_var(b) == c.scopes.get_var(b)
            &&& code == Ok::<Seq<CommandView>, CompilerErrorView>(
                seq![
                    CommandView {
                        instruction: Instruction::Copy,
                        operands: seq![
                            OperandView::Register(after.scopes.get_var(a)->Ok_0),
                            OperandView::Register(after.scopes.get_var(b)->Ok_0),
                        ],
                    },
                ],
            )
        }),
{
    reveal_with_fuel(lower_declarators, 3);
    let a = declarators[0].id->Identifier_0;
    let b = declarators[0].init->Some_0->Ident_0;
    lemma_declared_name_resolves(c.scopes, a, b);
    let code = lower_var_decl(c, kind, declarators).1->Ok_0;
    assert(code + Seq::<CommandView>::empty() =~= code);
}

/// `var a = "text";` alone: exactly one string load, of the text into the
/// register of `a`, which is the one that was next in the pool.
pub proof fn lemma_declaration_initialized_by_string(
    c: CompilerModel,
    kind: VariableKind,
    declarators: Seq<VariableDeclView>,
)
    requires
        declarators.len() == 1,
        declarators[0].id is Identifier,
        declarators[0].init matches Some(ExprView::Literal(LiteralView::String(_))),
        lower_var_decl(c, kind, declarators).1 is Ok,
    ensures
        ({
            let a = declarators[0].id->Identifier_0;
            let text = declarators[0].init->Some_0->Literal_0->String_0;
            let (after, code) = lower_var_decl(c, kind, declarators);
            &&& after.scopes.get_var(a) == Ok::<Register, CompilerErrorView>(c.scopes.free.first())
            &&& code == Ok::<Seq<CommandView>, CompilerErrorView>(
                seq![
                    CommandView {
                        instruction: Instruction::LoadString,
                        operands: seq![
                            OperandView::Register(after.scopes.get_var(a)->Ok_0),
                            OperandView::String(text),
                        ],
                    },
                ],
            )
        }),
{
    reveal_with_fuel(lower_declarators, 3);
    let a = declarators[0].id->Identifier_0;
    lemma_declared_name_resolves(c.scopes, a, a);
    let code = lower_var_decl(c, kind, declarators).1->Ok_0;
    assert(code + Seq::<CommandView>::empty() =~= code);
}

/// A construct that the compiler refuses gives the error that names it,
/// leaves the state as it was, and gives no command: a class declaration, a
/// `with` statement, a declarator with an array pattern, an arrow function
/// and a postfix update.
pub proof fn lemma_rejected_constructs(
    c: CompilerModel,
    target: Register,
    declarator: VariableDeclView,
    update: UpdateExprView,
)
    requires
        declarator.id is Array,
        !update.prefix,
    ensures
        lower_decl(c, DeclView::Class) == (
            c,
            Err::<Seq<CommandView>, CompilerErrorView>(unsupported(Construct::ClassDeclarations)),
        ),
        lower_stmt(c, StmtView::With) == (
            c,
            Err::<Seq<CommandView>, CompilerErrorView>(unsupported(Construct::WithStatements)),
        ),
        lower_declarator(c, declarator) == (
            c,
            Err::<Seq<CommandView>, CompilerErrorView>(unsupported(Construct::ArrayPatterns)),
        ),
        lower_expr(c, ExprView::ArrowFunction, target) == (
            c,
            Err::<Seq<CommandView>, CompilerErrorView>(unsupported(Construct::ArrowFunctions)),
        ),
        lower_expr(c, ExprView::Update(update), target) == (
            c,
            Err::<Seq<CommandView>, CompilerErrorView>(
                unsupported(Construct::SuffixUpdateExpressions),
            ),
        ),
{
}

/// The first item that fails ends the walk over a list of items: its error
/// is the error of the whole list, and the state is the one that it left.
pub proof fn lemma_first_failure_ends_the_walk(
    c: CompilerModel,
    parts: Seq<ProgramPartView>,
    from: int,
    failing: int,
)
    requires
        0 <= from <= failing < parts.len(),
        forall|i: int| from <= i < failing ==> (#[trigger] state_before(c, parts, from, i + 1)).1,
        lower_part(state_before(c, parts, from, failing).0, parts[failing]).1 is Err,
    ensures
        lower_parts(c, parts, from) == (
            lower_part(state_before(c, parts, from, failing).0, parts[failing]).0,
            Err::<Seq<CommandView>, CompilerErrorView>(
                lower_part(state_before(c, parts, from, failing).0, parts[failing]).1->Err_0,
            ),
        ),
    decreases failing - from,
{
    if from < failing {
        let c1 = lower_part(c, parts[from]).0;
        assert(state_before(c, parts, from, from + 1).1);
        assert forall|i: int| from + 1 <= i < failing implies (#[trigger] state_before(
            c1,
            parts,
            from + 1,
            i + 1,
        )).1 by {
            assert(state_before(c, parts, from, i + 1).1);
        }
        lemma_first_failure_ends_the_walk(c1, parts, from + 1, failing);
    }
}

/// The state in which item `at` of a list is lowered when the walk starts at
/// item `from`, and whether every item before it was lowered without an
/// error.
pub open spec fn state_before(
    c: CompilerModel,
    parts: Seq<ProgramPartView>,
    from: int,
    at: int,
) -> (CompilerModel, bool)
    decreases at - from,
{
    if from < at {
        let (c1, first) = lower_part(c, parts[from]);
        let (reached, fine) = state_before(c1, parts, from + 1, at);
        (reached, first is Ok && fine)
    } else {
        (c, true)
    }
}

/// A program that fails to compile gives no bytecode: what comes back is
/// the error alone. A module always fails.
pub proof fn lemma_failure_gives_no_bytecode(c: CompilerModel, program: ProgramView)
    ensures
        program is Mod ==> compile_program(c, program) == (
            c,
            Err::<Seq<CommandView>, CompilerErrorView>(unsupported(Construct::Modules)),
        ),
        program matches ProgramView::Script(parts) ==> (compile_program(c, program).1 is Err
            <==> lower_parts(c, parts, 0).1 is Err),
        program matches ProgramView::Script(parts) ==> (lower_parts(c, parts, 0).1 is Err
            ==> compile_program(c, program) == lower_parts(c, parts, 0)),
{
}

/// The bodies of the stored functions, one after the other, are at least as
/// long as the last of them.
pub proof fn lemma_function_code_holds_last_body(functions: Seq<FunctionModel>)
    requires
        functions.len() > 0,
    ensures
        function_code(functions).len() >= functions.last().bytecode.len(),
{
}

/// Where no function body is stored the finished stream is the top-level
/// code. Where one is stored and is not empty, the finished stream is the
/// top-level code, then an exit, then the bodies.
pub proof fn lemma_assembly(top: Seq<CommandView>, functions: Seq<FunctionModel>)
    ensures
        functions.len() == 0 ==> assemble(top, functions) == top,
        functions.len() > 0 && functions.last().bytecode.len() > 0 ==> {
            &&& assemble(top, functions).len() == top.len() + 1 + function_code(functions).len()
            &&& assemble(top, functions).take(top.len() as int) == top
            &&& assemble(top, functions)[top.len() as int] == bare_command(Instruction::Exit)
            &&& assemble(top, functions).skip(top.len() as int + 1) == function_code(functions)
        },
{
    if functions.len() > 0 && functions.last().bytecode.len() > 0 {
        lemma_function_code_holds_last_body(functions);
        let whole = assemble(top, functions);
        assert(whole.take(top.len() as int) =~= top);
        assert(whole.skip(top.len() as int + 1) =~= function_code(functions));
    }
}

/// A function that is lowered without an error emits nothing where it
/// stands, and is stored as the last function, with a body that ends with a
/// return.
pub proof fn lemma_function_is_stored(c: CompilerModel, function: FunctionView)
    requires
        lower_function(c, function).1 is Ok,
    ensures
        lower_function(c, function).1 == Ok::<Seq<CommandView>, CompilerErrorView>(Seq::empty()),
        lower_function(c, function).0.functions.len() > 0,
        ends_with_return(lower_function(c, function).0.functions.last().bytecode),
{
}

/// Whether every item from position `from` on is a function declaration.
pub open spec fn only_functions(parts: Seq<ProgramPartView>, from: int) -> bool {
    forall|i: int|
        from <= i < parts.len() ==> (#[trigger] parts[i]) matches ProgramPartView::Decl(
            DeclView::Function(_),
        )
}

/// Function declarations emit nothing where they stand, and the last of
/// them is stored last, with a body that is not empty.
proof fn lemma_only_functions(c: CompilerModel, parts: Seq<ProgramPartView>, from: int)
    requires
        0 <= from <= parts.len(),
        only_functions(parts, from),
        lower_parts(c, parts, from).1 is Ok,
    ensures
        lower_parts(c, parts, from).1 == Ok::<Seq<CommandView>, CompilerErrorView>(Seq::empty()),
        from < parts.len() ==> {
            &&& lower_parts(c, parts, from).0.functions.len() > 0
            &&& lower_parts(c, parts, from).0.functions.last().bytecode.len() > 0
        },
        from == parts.len() ==> lower_parts(c, parts, from).0 == c,
    decreases parts.len() - from,
{
    if from < parts.len() {
        let part = parts[from];
        assert(part matches ProgramPartView::Decl(DeclView::Function(_)));
        let function = part->Decl_0->Function_0;
        assert(lower_part(c, part) == lower_decl(c, part->Decl_0));
        assert(lower_decl(c, part->Decl_0) == lower_function(c, function));
        lemma_function_is_stored(c, function);
        let c1 = lower_part(c, part).0;
        lemma_only_functions(c1, parts, from + 1);
        let rest = lower_parts(c1, parts, from + 1);
        assert(Seq::<CommandView>::empty() + rest.1->Ok_0 =~= rest.1->Ok_0);
    }
}

/// A script of function declarations and nothing else, compiled by a
/// compiler that holds no function yet: the bytecode is empty if and only if
/// no function was declared. Where one was declared, the bytecode starts with
/// an exit and the function bodies follow it.
pub proof fn lemma_functions_without_calls(c: CompilerModel, program: ProgramView)
    requires
        c.functions.len() == 0,
        program matches ProgramView::Script(parts) && only_functions(parts, 0),
        compile_program(c, program).1 is Ok,
    ensures
        ({
            let parts = program->Script_0;
            let (after, bytecode) = compile_program(c, program);
            &&& bytecode->Ok_0.len() > 0 <==> parts.len() > 0
            &&& after.functions.len() > 0 <==> parts.len() > 0
            &&& parts.len() > 0 ==> {
                &&& bytecode->Ok_0[0] == bare_command(Instruction::Exit)
                &&& bytecode->Ok_0.skip(1) == function_code(after.functions)
                &&& function_code(after.functions).len() > 0
            }
        }),
{
    let parts = program->Script_0;
    lemma_only_functions(c, parts, 0);
    let after = compile_program(c, program).0;
    lemma_assembly(Seq::empty(), after.functions);
    if parts.len() > 0 {
        lemma_function_code_holds_last_body(after.functions);
    }
}

/// Compiling is a function of the state of the compiler and of the program
/// alone: two compilers that were just made give the same bytecode, or the
/// same error, for the same program, and are in the same state afterwards.
pub proof fn lemma_compilation_is_repeatable(
    first: CompilerModel,
    second: CompilerModel,
    program: ProgramView,
)
    requires
        first == CompilerModel::fresh(),
        second == CompilerModel::fresh(),
    ensures
        compile_program(first, program) == compile_program(second, program),
{
}

} // verus!
