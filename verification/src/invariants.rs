//! What every step of a compilation keeps.
//!
//! Lowering an expression does nothing to the state but take registers from
//! the front of the pool. Lowering a statement or a declaration may do more,
//! and still never touches what is already settled: the registers of the
//! common constants, the functions and advisories recorded so far, and the
//! scopes below the current one.

use vstd::prelude::*;
use crate::ast::{AssignmentOperator, VariableKind};
use crate::ast_view::{
    AssignmentExprView, AssignmentLeftView, CallExprView, DeclView, ExprView, FunctionArgView,
    FunctionView, MemberExprView, PatView, ProgramPartView, ProgramView, StmtView,
    UnaryExprView, UpdateExprView, VariableDeclView,
};
use crate::bytecode::{ends_with_return, Instruction};
use crate::lowering::{
    bare_command, bind_parameters, bound_register, compile_program, declare,
    declare_function_name, enter, function_code, kind_advisory, leave, lower_arguments,
    lower_assignment, lower_call, lower_decl, lower_declarator, lower_declarators, lower_expr,
    lower_function, lower_member, lower_part, lower_parts, lower_return, lower_stmt, lower_unary,
    lower_update, lower_var_decl, materialize, materialize_key, parameter_name, reserve,
    CompilerModel,
};
use crate::scope::{Register, ScopeModel, ScopesModel};
use crate::scope_laws::{
    is_apart, lemma_allocation_keeps_wf, lemma_apart_stays_apart, lemma_enter_keeps_pool,
    lemma_fresh_scopes, lemma_leave_returns_registers,
};

verus! {

/// `after` differs from `before` at most in that registers were taken from
/// the front of the pool.
pub open spec fn only_reserves(before: CompilerModel, after: CompilerModel) -> bool {
    let taken = before.scopes.free.len() - after.scopes.free.len();
    &&& taken >= 0
    &&& after == CompilerModel {
        scopes: ScopesModel { free: before.scopes.free.skip(taken), ..before.scopes },
        ..before
    }
}

/// Whether the registers of the common constants are out of reach of the
/// allocator: none of them is free, and no frame refers to one.
pub open spec fn constants_are_apart(c: CompilerModel) -> bool {
    forall|k: int| 0 <= k < c.literals.len() ==> is_apart(c.scopes, #[trigger] c.literals[k])
}

/// Whether every stored function body ends with a return.
pub open spec fn functions_are_closed(c: CompilerModel) -> bool {
    forall|i: int|
        0 <= i < c.functions.len() ==> ends_with_return((#[trigger] c.functions[i]).bytecode)
}

/// `after` keeps what was settled in `before`: the registers of the common
/// constants, which stay out of reach of the allocator if they were; the
/// functions and the advisories, to which more may have been added at the
/// end; that every function body ends with a return; the scopes below the
/// current one, above which the stack may have grown; and that no frame binds
/// a name twice.
pub open spec fn extends(before: CompilerModel, after: CompilerModel) -> bool {
    let depth = before.scopes.frames.len() as int;
    &&& after.literals == before.literals
    &&& constants_are_apart(before) ==> constants_are_apart(after)
    &&& functions_are_closed(before) ==> functions_are_closed(after)
    &&& after.functions.len() >= before.functions.len()
    &&& after.functions.take(before.functions.len() as int) == before.functions
    &&& after.advisories.len() >= before.advisories.len()
    &&& after.advisories.take(before.advisories.len() as int) == before.advisories
    &&& after.scopes.frames.len() >= depth
    &&& depth >= 1 ==> after.scopes.frames.take(depth - 1) == before.scopes.frames.take(depth - 1)
    &&& before.scopes.wf() ==> after.scopes.wf()
}

/// `after` extends `before`, and where the step succeeded the stack is as
/// deep as it was.
pub open spec fn keeps(before: CompilerModel, after: CompilerModel, succeeded: bool) -> bool {
    &&& extends(before, after)
    &&& succeeded ==> after.scopes.frames.len() == before.scopes.frames.len()
}

/// Taking registers, and then taking more, is taking registers.
pub proof fn lemma_only_reserves_twice(a: CompilerModel, b: CompilerModel, c: CompilerModel)
    requires
        only_reserves(a, b),
        only_reserves(b, c),
    ensures
        only_reserves(a, c),
{
    let first = a.scopes.free.len() - b.scopes.free.len();
    let second = b.scopes.free.len() - c.scopes.free.len();
    assert(a.scopes.free.skip(first).skip(second) =~= a.scopes.free.skip(first + second));
}

/// A state reserves nothing from itself.
pub proof fn lemma_only_reserves_nothing(c: CompilerModel)
    ensures
        only_reserves(c, c),
{
    assert(c.scopes.free.skip(0) =~= c.scopes.free);
}

/// Reserving a register takes one register, or none where it fails.
pub proof fn lemma_reserve(c: CompilerModel)
    ensures
        only_reserves(c, reserve(c).0),
{
    lemma_only_reserves_nothing(c);
    if c.scopes.free.len() > 0 {
        assert(c.scopes.free.skip(1) =~= c.scopes.free.drop_first());
    }
}

/// A state from which only registers were taken keeps what was settled, at
/// the same depth.
pub proof fn lemma_only_reserves_keeps(before: CompilerModel, after: CompilerModel)
    requires
        only_reserves(before, after),
    ensures
        keeps(before, after, true),
{
    assert(after.functions.take(before.functions.len() as int) =~= before.functions);
    assert(after.advisories.take(before.advisories.len() as int) =~= before.advisories);
    if constants_are_apart(before) {
        let taken = before.scopes.free.len() - after.scopes.free.len();
        assert forall|k: int| 0 <= k < after.literals.len() implies is_apart(
            after.scopes,
            #[trigger] after.literals[k],
        ) by {
            let register = before.literals[k];
            assert(is_apart(before.scopes, register));
            if after.scopes.free.contains(register) {
                let i = choose|i: int|
                    0 <= i < after.scopes.free.len() && after.scopes.free[i] == register;
                assert(before.scopes.free[i + taken] == register);
            }
            if after.scopes.uses(register) {
                let j = choose|j: int|
                    0 <= j < after.scopes.frames.len() && (#[trigger] after.scopes.frames[j]).uses(
                        register,
                    );
                assert(before.scopes.frames[j].uses(register));
            }
        }
    }
}

/// What extends an extension of a state extends the state.
pub proof fn lemma_extends_twice(a: CompilerModel, b: CompilerModel, c: CompilerModel)
    requires
        extends(a, b),
        extends(b, c),
    ensures
        extends(a, c),
{
    let depth = a.scopes.frames.len() as int;
    let deeper = b.scopes.frames.len() as int;
    assert(c.functions.take(a.functions.len() as int) =~= c.functions.take(
        b.functions.len() as int,
    ).take(a.functions.len() as int));
    assert(c.advisories.take(a.advisories.len() as int) =~= c.advisories.take(
        b.advisories.len() as int,
    ).take(a.advisories.len() as int));
    if depth >= 1 {
        assert(c.scopes.frames.take(depth - 1) =~= c.scopes.frames.take(deeper - 1).take(
            depth - 1,
        ));
        assert(b.scopes.frames.take(deeper - 1).take(depth - 1) =~= b.scopes.frames.take(
            depth - 1,
        ));
    }
}

/// Declaring a name keeps what was settled, at the same depth.
pub proof fn lemma_declare(c: CompilerModel, name: Seq<char>)
    ensures
        keeps(c, declare(c, name).0, true),
{
    let after = declare(c, name).0;
    assert(after.functions.take(c.functions.len() as int) =~= c.functions);
    assert(after.advisories.take(c.advisories.len() as int) =~= c.advisories);
    let depth = c.scopes.frames.len() as int;
    if depth >= 1 {
        assert(after.scopes.frames.take(depth - 1) =~= c.scopes.frames.take(depth - 1));
    }
    if c.scopes.wf() {
        lemma_allocation_keeps_wf(c.scopes, name);
    }
    if constants_are_apart(c) {
        assert forall|k: int| 0 <= k < after.literals.len() implies is_apart(
            after.scopes,
            #[trigger] after.literals[k],
        ) by {
            assert(is_apart(c.scopes, c.literals[k]));
            lemma_apart_stays_apart(c.scopes, name, c.literals[k]);
        }
    }
}

/// Lowering an expression, in any of its forms, does nothing to the state
/// but take registers from the front of the pool.
pub proof fn lemma_materialize_only_reserves(
    c: CompilerModel,
    expr: ExprView,
    hint: Option<Register>,
)
    ensures
        only_reserves(c, materialize(c, expr, hint).0),
    decreases expr, 1nat,
{
    lemma_only_reserves_nothing(c);
    if bound_register(c, expr) is None {
        let c1 = match hint {
            Some(_) => c,
            None => reserve(c).0,
        };
        let target = match hint {
            Some(register) => Ok(register),
            None => reserve(c).1,
        };
        lemma_reserve(c);
        if let Ok(target) = target {
            lemma_lower_expr_only_reserves(c1, expr, target);
            lemma_only_reserves_twice(c, c1, lower_expr(c1, expr, target).0);
        }
    }
}

/// See [`lemma_materialize_only_reserves`].
pub proof fn lemma_lower_expr_only_reserves(c: CompilerModel, expr: ExprView, target: Register)
    ensures
        only_reserves(c, lower_expr(c, expr, target).0),
    decreases expr, 0nat,
{
    lemma_only_reserves_nothing(c);
    match expr {
        ExprView::Assignment(assignment) => lemma_lower_assignment_only_reserves(
            c,
            assignment,
            target,
        ),
        ExprView::Call(call) => lemma_lower_call_only_reserves(c, call, target),
        ExprView::Member(member) => lemma_lower_member_only_reserves(c, member, target),
        ExprView::Unary(unary) => lemma_lower_unary_only_reserves(c, unary, target),
        ExprView::Update(update) => lemma_lower_update_only_reserves(c, update),
        _ => {},
    }
}

/// See [`lemma_materialize_only_reserves`].
pub proof fn lemma_lower_call_only_reserves(c: CompilerModel, call: CallExprView, target: Register)
    ensures
        only_reserves(c, lower_call(c, call, target).0),
    decreases call, 0nat,
{
    lemma_materialize_only_reserves(c, *call.callee, Some(target));
    let (c1, callee) = materialize(c, *call.callee, Some(target));
    if callee is Ok {
        lemma_lower_arguments_only_reserves(c1, call.arguments, 0);
        lemma_only_reserves_twice(c, c1, lower_arguments(c1, call.arguments, 0).0);
    }
}

/// See [`lemma_materialize_only_reserves`].
pub proof fn lemma_lower_arguments_only_reserves(
    c: CompilerModel,
    arguments: Seq<ExprView>,
    from: int,
)
    ensures
        only_reserves(c, lower_arguments(c, arguments, from).0),
    decreases arguments, arguments.len() - from,
{
    lemma_only_reserves_nothing(c);
    if 0 <= from < arguments.len() {
        lemma_materialize_only_reserves(c, arguments[from], None);
        let (c1, first) = materialize(c, arguments[from], None);
        if first is Ok {
            lemma_lower_arguments_only_reserves(c1, arguments, from + 1);
            lemma_only_reserves_twice(c, c1, lower_arguments(c1, arguments, from + 1).0);
        }
    }
}

/// See [`lemma_materialize_only_reserves`].
pub proof fn lemma_lower_member_only_reserves(
    c: CompilerModel,
    member: MemberExprView,
    target: Register,
)
    ensures
        only_reserves(c, lower_member(c, member, target).0),
    decreases member, 0nat,
{
    lemma_materialize_only_reserves(c, *member.object, None);
    let (c1, object) = materialize(c, *member.object, None);
    if object is Ok {
        match *member.property {
            ExprView::Ident(name) => {
                lemma_reserve(c1);
                lemma_only_reserves_twice(c, c1, materialize_key(c1, name).0);
            },
            _ => {
                lemma_materialize_only_reserves(c1, *member.property, None);
                lemma_only_reserves_twice(c, c1, materialize(c1, *member.property, None).0);
            },
        }
    }
}

/// See [`lemma_materialize_only_reserves`].
pub proof fn lemma_lower_assignment_only_reserves(
    c: CompilerModel,
    assignment: AssignmentExprView,
    target: Register,
)
    ensures
        only_reserves(c, lower_assignment(c, assignment, target).0),
    decreases assignment, 0nat,
{
    lemma_only_reserves_nothing(c);
    match assignment.left {
        AssignmentLeftView::Pat(_) => {},
        AssignmentLeftView::Expr(left) => {
            lemma_materialize_only_reserves(c, *left, None);
            let (c1, left) = materialize(c, *left, None);
            if let Ok((_, left_register)) = left {
                match assignment.operator {
                    AssignmentOperator::Equal => {
                        lemma_lower_expr_only_reserves(c1, *assignment.right, left_register);
                        lemma_only_reserves_twice(
                            c,
                            c1,
                            lower_expr(c1, *assignment.right, left_register).0,
                        );
                    },
                    _ => {
                        lemma_materialize_only_reserves(c1, *assignment.right, None);
                        lemma_only_reserves_twice(
                            c,
                            c1,
                            materialize(c1, *assignment.right, None).0,
                        );
                    },
                }
            }
        },
    }
}

/// See [`lemma_materialize_only_reserves`].
pub proof fn lemma_lower_update_only_reserves(c: CompilerModel, update: UpdateExprView)
    ensures
        only_reserves(c, lower_update(c, update).0),
    decreases update, 0nat,
{
    lemma_only_reserves_nothing(c);
    if update.prefix {
        lemma_materialize_only_reserves(c, *update.argument, None);
    }
}

/// See [`lemma_materialize_only_reserves`].
pub proof fn lemma_lower_unary_only_reserves(
    c: CompilerModel,
    unary: UnaryExprView,
    target: Register,
)
    ensures
        only_reserves(c, lower_unary(c, unary, target).0),
    decreases unary, 0nat,
{
    lemma_only_reserves_nothing(c);
    if unary.prefix {
        lemma_materialize_only_reserves(c, *unary.argument, None);
    }
}

/// Lowering a return does nothing to the state but take registers from the
/// front of the pool.
pub proof fn lemma_lower_return_only_reserves(c: CompilerModel, value: Option<ExprView>)
    ensures
        only_reserves(c, lower_return(c, value).0),
{
    lemma_only_reserves_nothing(c);
    if let Some(value) = value {
        lemma_materialize_only_reserves(c, value, None);
    }
}

/// Lowering one declarator keeps what was settled, at the same depth.
pub proof fn lemma_lower_declarator_keeps(c: CompilerModel, declarator: VariableDeclView)
    ensures
        keeps(c, lower_declarator(c, declarator).0, true),
{
    lemma_only_reserves_nothing(c);
    lemma_only_reserves_keeps(c, c);
    match declarator.id {
        PatView::Identifier(name) => {
            lemma_declare(c, name);
            let (c1, register) = declare(c, name);
            if let Ok(register) = register {
                if let Some(init) = declarator.init {
                    lemma_lower_expr_only_reserves(c1, init, register);
                    let c2 = lower_expr(c1, init, register).0;
                    lemma_only_reserves_keeps(c1, c2);
                    lemma_extends_twice(c, c1, c2);
                }
            }
        },
        _ => {},
    }
}

/// Lowering declarators keeps what was settled, at the same depth.
pub proof fn lemma_lower_declarators_keeps(
    c: CompilerModel,
    declarators: Seq<VariableDeclView>,
    from: int,
)
    ensures
        keeps(c, lower_declarators(c, declarators, from).0, true),
    decreases declarators.len() - from,
{
    lemma_only_reserves_nothing(c);
    lemma_only_reserves_keeps(c, c);
    if 0 <= from < declarators.len() {
        lemma_lower_declarator_keeps(c, declarators[from]);
        let (c1, first) = lower_declarator(c, declarators[from]);
        if first is Ok {
            lemma_lower_declarators_keeps(c1, declarators, from + 1);
            lemma_extends_twice(c, c1, lower_declarators(c1, declarators, from + 1).0);
        }
    }
}

/// Lowering a variable declaration keeps what was settled, at the same
/// depth.
pub proof fn lemma_lower_var_decl_keeps(
    c: CompilerModel,
    kind: VariableKind,
    declarators: Seq<VariableDeclView>,
)
    ensures
        keeps(c, lower_var_decl(c, kind, declarators).0, true),
{
    let started = CompilerModel {
        advisories: c.advisories + kind_advisory(kind),
        ..c
    };
    assert(started.advisories.take(c.advisories.len() as int) =~= c.advisories);
    assert(started.functions.take(c.functions.len() as int) =~= c.functions);
    lemma_lower_declarators_keeps(started, declarators, 0);
    lemma_extends_twice(c, started, lower_declarators(started, declarators, 0).0);
}

/// Binding parameters keeps what was settled, at the same depth.
pub proof fn lemma_bind_parameters_keeps(
    c: CompilerModel,
    parameters: Seq<FunctionArgView>,
    from: int,
)
    ensures
        keeps(c, bind_parameters(c, parameters, from).0, true),
    decreases parameters.len() - from,
{
    lemma_only_reserves_nothing(c);
    lemma_only_reserves_keeps(c, c);
    if 0 <= from < parameters.len() {
        if let Some(name) = parameter_name(parameters[from]) {
            lemma_declare(c, name);
            let (c1, first) = declare(c, name);
            if first is Ok {
                lemma_bind_parameters_keeps(c1, parameters, from + 1);
                lemma_extends_twice(c, c1, bind_parameters(c1, parameters, from + 1).0);
            }
        }
    }
}

/// Lowering an item keeps what was settled; where it succeeds, the stack is
/// as deep afterwards as it was before.
pub proof fn lemma_lower_part_keeps(c: CompilerModel, part: ProgramPartView)
    ensures
        keeps(c, lower_part(c, part).0, lower_part(c, part).1 is Ok),
    decreases part, 0nat,
{
    lemma_only_reserves_nothing(c);
    lemma_only_reserves_keeps(c, c);
    match part {
        ProgramPartView::Dir => {},
        ProgramPartView::Decl(decl) => lemma_lower_decl_keeps(c, decl),
        ProgramPartView::Stmt(stmt) => lemma_lower_stmt_keeps(c, stmt),
    }
}

/// Lowering a list of items keeps what was settled; where it succeeds, the
/// stack is as deep afterwards as it was before.
pub proof fn lemma_lower_parts_keeps(c: CompilerModel, parts: Seq<ProgramPartView>, from: int)
    ensures
        keeps(c, lower_parts(c, parts, from).0, lower_parts(c, parts, from).1 is Ok),
    decreases parts, parts.len() - from,
{
    lemma_only_reserves_nothing(c);
    lemma_only_reserves_keeps(c, c);
    if 0 <= from < parts.len() {
        lemma_lower_part_keeps(c, parts[from]);
        let (c1, first) = lower_part(c, parts[from]);
        if first is Ok {
            lemma_lower_parts_keeps(c1, parts, from + 1);
            lemma_extends_twice(c, c1, lower_parts(c1, parts, from + 1).0);
        }
    }
}

/// Lowering a declaration keeps what was settled; where it succeeds, the
/// stack is as deep afterwards as it was before.
pub proof fn lemma_lower_decl_keeps(c: CompilerModel, decl: DeclView)
    ensures
        keeps(c, lower_decl(c, decl).0, lower_decl(c, decl).1 is Ok),
    decreases decl, 0nat,
{
    lemma_only_reserves_nothing(c);
    lemma_only_reserves_keeps(c, c);
    match decl {
        DeclView::Variable(kind, declarators) => lemma_lower_var_decl_keeps(c, kind, declarators),
        DeclView::Function(function) => lemma_lower_function_keeps(c, function),
        _ => {},
    }
}

/// Lowering a statement keeps what was settled; where it succeeds, the
/// stack is as deep afterwards as it was before.
pub proof fn lemma_lower_stmt_keeps(c: CompilerModel, stmt: StmtView)
    ensures
        keeps(c, lower_stmt(c, stmt).0, lower_stmt(c, stmt).1 is Ok),
    decreases stmt, 0nat,
{
    lemma_only_reserves_nothing(c);
    lemma_only_reserves_keeps(c, c);
    match stmt {
        StmtView::Expr(expr) => {
            if let Ok(register) = c.scopes.throwaway() {
                lemma_lower_expr_only_reserves(c, expr, register);
                lemma_only_reserves_keeps(c, lower_expr(c, expr, register).0);
            }
        },
        StmtView::Block(parts) => lemma_lower_parts_keeps(c, parts, 0),
        StmtView::Return(value) => {
            if let Some(value) = value {
                lemma_materialize_only_reserves(c, value, None);
                lemma_only_reserves_keeps(c, materialize(c, value, None).0);
            }
        },
        StmtView::Var(declarators) => lemma_lower_var_decl_keeps(c, VariableKind::Var, declarators),
        _ => {},
    }
}

/// Lowering a function declaration keeps what was settled. Where it
/// succeeds, the scopes are exactly as they were once the name of the
/// function was bound: the scope of the body is gone, and with it every name
/// that was declared in it.
pub proof fn lemma_lower_function_keeps(c: CompilerModel, function: FunctionView)
    ensures
        keeps(c, lower_function(c, function).0, lower_function(c, function).1 is Ok),
        lower_function(c, function).1 is Ok ==> lower_function(c, function).0.scopes.frames
            == declare_function_name(c, function).0.scopes.frames,
    decreases function, 0nat,
{
    lemma_only_reserves_nothing(c);
    lemma_only_reserves_keeps(c, c);
    if !(function.generator || function.is_async) {
        let (c1, named) = declare_function_name(c, function);
        if let Some(name) = function.id {
            lemma_declare(c, name);
        }
        if named is Ok {
            let depth = c1.scopes.frames.len() as int;
            let (c2, entered) = enter(c1);
            if entered is Ok {
                assert(extends(c1, c2)) by {
                    if constants_are_apart(c1) {
                        assert forall|k: int| 0 <= k < c2.literals.len() implies is_apart(
                            c2.scopes,
                            #[trigger] c2.literals[k],
                        ) by {
                            assert(is_apart(c1.scopes, c1.literals[k]));
                            lemma_apart_stays_apart(c1.scopes, Seq::empty(), c1.literals[k]);
                        }
                    }
                    assert(c2.functions.take(c1.functions.len() as int) =~= c1.functions);
                    assert(c2.advisories.take(c1.advisories.len() as int) =~= c1.advisories);
                    assert(c2.scopes.frames.take(depth - 1) =~= c1.scopes.frames.take(depth - 1));
                    if c1.scopes.wf() {
                        lemma_enter_keeps_pool(c1.scopes);
                    }
                }
                assert(c2.scopes.frames.take(depth) =~= c1.scopes.frames);
                lemma_bind_parameters_keeps(c2, function.params, 0);
                let (c3, arguments) = bind_parameters(c2, function.params, 0);
                lemma_extends_twice(c1, c2, c3);
                lemma_extends_twice(c, c1, c3);
                if arguments is Ok {
                    lemma_lower_parts_keeps(c3, function.body, 0);
                    let (c4, body) = lower_parts(c3, function.body, 0);
                    lemma_extends_twice(c1, c3, c4);
                    lemma_extends_twice(c, c1, c4);
                    if body is Ok {
                        let (c5, left) = leave(c4);
                        assert(left is Ok);
                        assert(c5.scopes.frames =~= c1.scopes.frames) by {
                            assert(c4.scopes.frames.take(depth) == c3.scopes.frames.take(depth));
                            assert(c3.scopes.frames.take(depth) == c2.scopes.frames.take(depth));
                            assert(c4.scopes.frames.drop_last() =~= c4.scopes.frames.take(depth));
                        }
                        let after = lower_function(c, function).0;
                        assert(after.scopes == c5.scopes);
                        assert(after.functions.take(c.functions.len() as int) =~= c5.functions.take(
                            c.functions.len() as int,
                        ));
                        assert(after.functions.take(c.functions.len() as int) =~= c.functions) by {
                            assert(c5.functions == c4.functions);
                            assert(c4.functions.take(c.functions.len() as int) == c.functions);
                        }
                        assert(after.scopes.wf() <== c.scopes.wf()) by {
                            if c.scopes.wf() {
                                lemma_leave_returns_registers(c4.scopes);
                            }
                        }
                        if constants_are_apart(c) {
                            assert forall|k: int| 0 <= k < after.literals.len() implies is_apart(
                                after.scopes,
                                #[trigger] after.literals[k],
                            ) by {
                                assert(is_apart(c4.scopes, c4.literals[k]));
                                lemma_apart_stays_apart(c4.scopes, Seq::empty(), c4.literals[k]);
                            }
                        }
                        if functions_are_closed(c) {
                            assert forall|i: int|
                                0 <= i < after.functions.len() implies ends_with_return(
                                (#[trigger] after.functions[i]).bytecode,
                            ) by {
                                if i < c4.functions.len() {
                                    assert(after.functions[i] == c4.functions[i]);
                                }
                            }
                        }
                        let shallow = c.scopes.frames.len() as int;
                        if shallow >= 1 {
                            assert(after.scopes.frames.take(shallow - 1) =~= c.scopes.frames.take(
                                shallow - 1,
                            ));
                        }
                    }
                }
            }
        }
    }
}

/// Compiling a program keeps what was settled; where it succeeds, the stack
/// is as deep afterwards as it was before. So a compilation that starts
/// with a scope never runs out of scopes.
pub proof fn lemma_compile_program_keeps(c: CompilerModel, program: ProgramView)
    ensures
        keeps(c, compile_program(c, program).0, compile_program(c, program).1 is Ok),
        c.scopes.frames.len() > 0 ==> compile_program(c, program).0.scopes.frames.len() > 0,
{
    lemma_only_reserves_nothing(c);
    lemma_only_reserves_keeps(c, c);
    if let ProgramView::Script(parts) = program {
        lemma_lower_parts_keeps(c, parts, 0);
    }
}

/// The state in which a compilation starts: the registers 254, 253 and 252
/// are those of zero, one and `undefined`; the registers 0 to 251 are free, in
/// rising order; one empty scope is open; and the registers of the constants
/// are out of reach of the allocator.
pub proof fn lemma_fresh_compiler()
    ensures
        CompilerModel::fresh().literals == seq![254u8, 253u8, 252u8],
        CompilerModel::fresh().scopes.free.len() == 252,
        forall|i: int| 0 <= i < 252 ==> CompilerModel::fresh().scopes.free[i] == i,
        CompilerModel::fresh().scopes.frames == seq![ScopeModel::empty()],
        CompilerModel::fresh().functions.len() == 0,
        CompilerModel::fresh().advisories.len() == 0,
        CompilerModel::fresh().scopes.wf(),
        CompilerModel::fresh().scopes.pool_is_disjoint(),
        constants_are_apart(CompilerModel::fresh()),
{
    let fresh = CompilerModel::fresh();
    lemma_fresh_scopes();
    let pool = ScopesModel::fresh().free;
    assert(fresh.literals =~= seq![254u8, 253u8, 252u8]);
    assert forall|r: Register| !fresh.scopes.uses(r) by {
        if fresh.scopes.uses(r) {
            let k = choose|k: int|
                0 <= k < fresh.scopes.frames.len() && (#[trigger] fresh.scopes.frames[k]).uses(r);
            assert(fresh.scopes.frames[k].used_registers() =~= Seq::<Register>::empty());
        }
    }
    assert forall|k: int| 0 <= k < fresh.literals.len() implies is_apart(
        fresh.scopes,
        #[trigger] fresh.literals[k],
    ) by {
        let register = fresh.literals[k];
        if fresh.scopes.free.contains(register) {
            let i = choose|i: int| 0 <= i < fresh.scopes.free.len() && fresh.scopes.free[i]
                == register;
            assert(fresh.scopes.free[i] == pool[i]);
        }
    }
    assert(fresh.scopes.free.no_duplicates()) by {
        assert forall|i: int, j: int|
            0 <= i < fresh.scopes.free.len() && 0 <= j < fresh.scopes.free.len() && i
                != j implies fresh.scopes.free[i] != fresh.scopes.free[j] by {
            assert(fresh.scopes.free[i] == pool[i]);
            assert(fresh.scopes.free[j] == pool[j]);
        }
    }
}

/// The finished stream of a compiler whose function bodies end with a
/// return, as those of a new compiler do: where the compiler holds no
/// function after the walk, the stream is the top-level code and nothing
/// else; where it holds one, the stream is the top-level code, then an exit,
/// then every function body in the order of the declarations.
pub proof fn lemma_exit_separates_functions(c: CompilerModel, program: ProgramView)
    requires
        functions_are_closed(c),
        program is Script,
        compile_program(c, program).1 is Ok,
    ensures
        ({
            let top = lower_parts(c, program->Script_0, 0).1->Ok_0;
            let (after, bytecode) = compile_program(c, program);
            &&& functions_are_closed(after)
            &&& after.functions.len() == 0 ==> bytecode->Ok_0 == top
            &&& after.functions.len() > 0 ==> {
                &&& function_code(after.functions).len() > 0
                &&& bytecode->Ok_0 == top.push(bare_command(Instruction::Exit)) + function_code(
                    after.functions,
                )
            }
        }),
{
    lemma_compile_program_keeps(c, program);
    let after = compile_program(c, program).0;
    if after.functions.len() > 0 {
        assert(ends_with_return(after.functions[after.functions.len() - 1].bytecode));
    }
}

/// A compilation keeps the registers of the common constants, and keeps them
/// out of reach of the allocator where they were so before, as those of a
/// new compiler are.
pub proof fn lemma_constants_stay_apart(c: CompilerModel, program: ProgramView)
    requires
        constants_are_apart(c),
    ensures
        constants_are_apart(compile_program(c, program).0),
        compile_program(c, program).0.literals == c.literals,
{
    lemma_compile_program_keeps(c, program);
}

} // verus!
