//! What the compiler computes, as mathematics.
//!
//! Lowering is a function from the state of a compilation and a node of the
//! syntax tree to the state afterwards and either the commands for the node
//! or the error that stopped the compilation. The state after an error is
//! part of the result: registers and scopes that were taken before the error
//! are not given back.

use vstd::prelude::*;
use crate::ast::{AssignmentOperator, VariableKind};
use crate::ast_view::{
    AssignmentExprView, AssignmentLeftView, CallExprView, DeclView, ExprView, FunctionArgView,
    FunctionView, MemberExprView, PatView, ProgramPartView, ProgramView, StmtView,
    UnaryExprView, UpdateExprView, VariableDeclView,
};
use crate::bytecode::{
    ends_with_return, literal_operand, CommandView, Instruction, OperandView,
};
use crate::error::{unsupported, Advisory, CompilerErrorView, Construct};
use crate::instruction_set::{
    assignment_command, assignment_instruction, load_command, unary_command, update_command,
    CommonLiteral,
};
use crate::instruction_set::reserve_common_literals;
use crate::scope::{Register, ScopesModel};

verus! {

/// A compiled function body that waits to be placed behind the top-level
/// code.
pub struct FunctionModel {
    /// The commands of the body, closed by a return.
    pub bytecode: Seq<CommandView>,
    /// The registers of the parameters, in the order of the parameters.
    pub arguments: Seq<Register>,
    /// The declaration that the body was compiled from.
    pub ast: Option<FunctionView>,
}

/// The state of a compilation.
pub struct CompilerModel {
    /// The scope stack and the free registers.
    pub scopes: ScopesModel,
    /// The functions compiled so far, in the order of their declarations.
    pub functions: Seq<FunctionModel>,
    /// The advisories given so far.
    pub advisories: Seq<Advisory>,
    /// The registers of the common constants.
    pub literals: Seq<Register>,
}

impl CompilerModel {
    /// The state in which a compilation starts: the registers of the common
    /// constants are set aside from a fresh pool, one empty scope is open,
    /// and nothing has been compiled or remarked.
    pub open spec fn fresh() -> CompilerModel {
        let (scopes, literals) = reserve_common_literals(ScopesModel::fresh());
        CompilerModel {
            scopes,
            functions: Seq::empty(),
            advisories: Seq::empty(),
            literals: literals->Ok_0,
        }
    }
}

/// The state after lowering, and the commands or the error.
pub type Lowered = (CompilerModel, Result<Seq<CommandView>, CompilerErrorView>);

/// The state after materializing, and the commands with the register that
/// holds the value, or the error.
pub type Materialized = (CompilerModel, Result<(Seq<CommandView>, Register), CompilerErrorView>);

/// The state after lowering a list of operands, and the commands with the
/// registers that hold the values, or the error.
pub type Gathered = (
    CompilerModel,
    Result<(Seq<CommandView>, Seq<Register>), CompilerErrorView>,
);

/// A command without operands.
pub open spec fn bare_command(instruction: Instruction) -> CommandView {
    CommandView { instruction, operands: Seq::empty() }
}

/// The command that returns the values of `registers`.
pub open spec fn return_command(registers: Seq<Register>) -> CommandView {
    CommandView {
        instruction: Instruction::ReturnBytecodeFunc,
        operands: seq![OperandView::RegistersArray(registers)],
    }
}

/// The command that calls `callee` with `arguments` and puts the result into
/// `target`.
pub open spec fn call_command(
    target: Register,
    callee: Register,
    arguments: Seq<Register>,
) -> CommandView {
    CommandView {
        instruction: Instruction::CallFunc,
        operands: seq![
            OperandView::Register(target),
            OperandView::Register(callee),
            OperandView::RegistersArray(arguments),
        ],
    }
}

/// The command that puts the property `property` of `object` into `target`.
pub open spec fn property_command(
    target: Register,
    object: Register,
    property: Register,
) -> CommandView {
    CommandView {
        instruction: Instruction::PropAccess,
        operands: seq![
            OperandView::Register(target),
            OperandView::Register(object),
            OperandView::Register(property),
        ],
    }
}

/// Takes the next free register.
pub open spec fn reserve(c: CompilerModel) -> (CompilerModel, Result<Register, CompilerErrorView>) {
    let (scopes, register) = c.scopes.take_front();
    (CompilerModel { scopes, ..c }, register)
}

/// Binds `name` to the next free register in the current scope.
pub open spec fn declare(c: CompilerModel, name: Seq<char>) -> (
    CompilerModel,
    Result<Register, CompilerErrorView>,
) {
    let (scopes, register) = c.scopes.add_decl(name);
    (CompilerModel { scopes, ..c }, register)
}

/// The register of `expr`, where `expr` is a name that the current scope
/// binds.
pub open spec fn bound_register(c: CompilerModel, expr: ExprView) -> Option<Register> {
    match expr {
        ExprView::Ident(name) => match c.scopes.get_var(name) {
            Ok(register) => Some(register),
            Err(_) => None,
        },
        _ => None,
    }
}

/// Brings the value of `expr` into a register. A name that the current scope
/// binds is its own register, and nothing is emitted or reserved. Otherwise
/// the value is lowered into `hint`, or into a newly reserved register where
/// there is no hint.
pub open spec fn materialize(
    c: CompilerModel,
    expr: ExprView,
    hint: Option<Register>,
) -> Materialized
    decreases expr, 1nat,
{
    match bound_register(c, expr) {
        Some(register) => (c, Ok((Seq::empty(), register))),
        None => {
            let (c1, target) = match hint {
                Some(register) => (c, Ok(register)),
                None => reserve(c),
            };
            match target {
                Err(error) => (c1, Err(error)),
                Ok(target) => {
                    let (c2, code) = lower_expr(c1, expr, target);
                    match code {
                        Err(error) => (c2, Err(error)),
                        Ok(code) => (c2, Ok((code, target))),
                    }
                },
            }
        },
    }
}

/// Brings the name of a property, as a string, into a newly reserved
/// register.
pub open spec fn materialize_key(c: CompilerModel, name: Seq<char>) -> Materialized {
    let (c1, target) = reserve(c);
    match target {
        Err(error) => (c1, Err(error)),
        Ok(target) => (c1, Ok((seq![load_command(target, OperandView::String(name))], target))),
    }
}

/// Lowers an expression so that its value arrives in `target`.
pub open spec fn lower_expr(c: CompilerModel, expr: ExprView, target: Register) -> Lowered
    decreases expr, 0nat,
{
    match expr {
        ExprView::Array => (c, Err(unsupported(Construct::ExpressionType))),
        ExprView::ArrowFunction => (c, Err(unsupported(Construct::ArrowFunctions))),
        ExprView::ArrowParamPlaceHolder => (
            c,
            Err(unsupported(Construct::ArrowParameterPlaceholders)),
        ),
        ExprView::Assignment(assignment) => lower_assignment(c, assignment, target),
        ExprView::Await => (c, Err(unsupported(Construct::AwaitExpressions))),
        ExprView::Binary => (c, Err(unsupported(Construct::ExpressionType))),
        ExprView::Class => (c, Err(unsupported(Construct::ClassExpressions))),
        ExprView::Call(call) => lower_call(c, call, target),
        ExprView::Conditional => (c, Err(unsupported(Construct::ExpressionType))),
        ExprView::Function => (c, Err(unsupported(Construct::FunctionExpressions))),
        ExprView::Ident(name) => match c.scopes.get_var(name) {
            Err(error) => (c, Err(error)),
            Ok(register) => (c, Ok(seq![load_command(target, OperandView::Register(register))])),
        },
        ExprView::Literal(literal) => match literal_operand(literal) {
            Err(error) => (c, Err(error)),
            Ok(operand) => (c, Ok(seq![load_command(target, operand)])),
        },
        ExprView::Logical => (c, Err(unsupported(Construct::ExpressionType))),
        ExprView::Member(member) => lower_member(c, member, target),
        ExprView::MetaProperty => (c, Err(unsupported(Construct::MetaProperties))),
        ExprView::New => (c, Err(unsupported(Construct::ExpressionType))),
        ExprView::Object => (c, Err(unsupported(Construct::ExpressionType))),
        ExprView::Sequence => (c, Err(unsupported(Construct::ExpressionType))),
        ExprView::Spread => (c, Err(unsupported(Construct::SpreadExpressions))),
        ExprView::Super => (c, Err(unsupported(Construct::SuperExpressions))),
        ExprView::TaggedTemplate => (c, Err(unsupported(Construct::TaggedTemplateExpressions))),
        ExprView::This => (c, Err(unsupported(Construct::ExpressionType))),
        ExprView::Unary(unary) => lower_unary(c, unary, target),
        ExprView::Update(update) => lower_update(c, update),
        ExprView::Yield => (c, Err(unsupported(Construct::YieldExpressions))),
    }
}

/// Lowers a call. The callee is materialized with `target` as its hint, then
/// the arguments from left to right, each into a register of its own. The
/// commands of the arguments come first, then those of the callee, then the
/// call.
pub open spec fn lower_call(c: CompilerModel, call: CallExprView, target: Register) -> Lowered
    decreases call, 0nat,
{
    let (c1, callee) = materialize(c, *call.callee, Some(target));
    match callee {
        Err(error) => (c1, Err(error)),
        Ok((callee_code, callee_register)) => {
            let (c2, arguments) = lower_arguments(c1, call.arguments, 0);
            match arguments {
                Err(error) => (c2, Err(error)),
                Ok((argument_code, argument_registers)) => (
                    c2,
                    Ok(
                        (argument_code + callee_code).push(
                            call_command(target, callee_register, argument_registers),
                        ),
                    ),
                ),
            }
        },
    }
}

/// Materializes the arguments from position `from` on, in order, each
/// without a hint. The first failure stops the walk.
pub open spec fn lower_arguments(c: CompilerModel, arguments: Seq<ExprView>, from: int) -> Gathered
    decreases arguments, arguments.len() - from,
{
    if 0 <= from < arguments.len() {
        let (c1, first) = materialize(c, arguments[from], None);
        match first {
            Err(error) => (c1, Err(error)),
            Ok((first_code, first_register)) => {
                let (c2, rest) = lower_arguments(c1, arguments, from + 1);
                match rest {
                    Err(error) => (c2, Err(error)),
                    Ok((rest_code, rest_registers)) => (
                        c2,
                        Ok((first_code + rest_code, seq![first_register] + rest_registers)),
                    ),
                }
            },
        }
    } else {
        (c, Ok((Seq::empty(), Seq::empty())))
    }
}

/// Lowers a property access. The object is materialized, then the property:
/// a property that is a bare name is taken as the string of that name, not
/// as a variable.
pub open spec fn lower_member(c: CompilerModel, member: MemberExprView, target: Register) -> Lowered
    decreases member, 0nat,
{
    let (c1, object) = materialize(c, *member.object, None);
    match object {
        Err(error) => (c1, Err(error)),
        Ok((object_code, object_register)) => {
            let (c2, property) = match *member.property {
                ExprView::Ident(name) => materialize_key(c1, name),
                _ => materialize(c1, *member.property, None),
            };
            match property {
                Err(error) => (c2, Err(error)),
                Ok((property_code, property_register)) => (
                    c2,
                    Ok(
                        (object_code + property_code).push(
                            property_command(target, object_register, property_register),
                        ),
                    ),
                ),
            }
        },
    }
}

/// Lowers an assignment. The left side must be an expression; it is
/// materialized first. A plain `=` lowers the right side into the register
/// of the left side. A compound operator materializes the right side too and
/// combines the two in place; one without an instruction is refused at that
/// point. Where the left side is a property access, the register that is
/// assigned to is the one that its value was read into: nothing is written
/// to the object.
pub open spec fn lower_assignment(
    c: CompilerModel,
    assignment: AssignmentExprView,
    target: Register,
) -> Lowered
    decreases assignment, 0nat,
{
    match assignment.left {
        AssignmentLeftView::Pat(_) => (c, Err(unsupported(Construct::PatternsInAssignments))),
        AssignmentLeftView::Expr(left) => {
            let (c1, left) = materialize(c, *left, None);
            match left {
                Err(error) => (c1, Err(error)),
                Ok((left_code, left_register)) => match assignment.operator {
                    AssignmentOperator::Equal => {
                        let (c2, right_code) = lower_expr(c1, *assignment.right, left_register);
                        match right_code {
                            Err(error) => (c2, Err(error)),
                            Ok(right_code) => (c2, Ok(left_code + right_code)),
                        }
                    },
                    operator => {
                        let (c2, right) = materialize(c1, *assignment.right, None);
                        match right {
                            Err(error) => (c2, Err(error)),
                            Ok((right_code, right_register)) => if assignment_instruction(
                                operator,
                            ) is Some {
                                (
                                    c2,
                                    Ok(
                                        (left_code + right_code).push(
                                            assignment_command(
                                                operator,
                                                left_register,
                                                right_register,
                                            ),
                                        ),
                                    ),
                                )
                            } else {
                                (c2, Err(unsupported(Construct::AssignmentOperation(operator))))
                            },
                        }
                    },
                },
            }
        },
    }
}

/// Lowers an increment or decrement. Only the prefix form is accepted; the
/// operand is materialized and changed in place.
pub open spec fn lower_update(c: CompilerModel, update: UpdateExprView) -> Lowered
    decreases update, 0nat,
{
    if update.prefix {
        let (c1, argument) = materialize(c, *update.argument, None);
        match argument {
            Err(error) => (c1, Err(error)),
            Ok((code, register)) => (
                c1,
                Ok(
                    code.push(
                        update_command(
                            update.operator,
                            register,
                            c1.literals[CommonLiteral::Num1.index()],
                        ),
                    ),
                ),
            ),
        }
    } else {
        (c, Err(unsupported(Construct::SuffixUpdateExpressions)))
    }
}

/// Lowers an operation with one operand. Only the prefix form is accepted;
/// the operand is materialized before the operator is looked at.
pub open spec fn lower_unary(c: CompilerModel, unary: UnaryExprView, target: Register) -> Lowered
    decreases unary, 0nat,
{
    if unary.prefix {
        let (c1, argument) = materialize(c, *unary.argument, None);
        match argument {
            Err(error) => (c1, Err(error)),
            Ok((code, register)) => match unary_command(
                unary.operator,
                target,
                register,
                c1.literals[CommonLiteral::Num0.index()],
            ) {
                Err(error) => (c1, Err(error)),
                Ok(command) => (c1, Ok(code.push(command))),
            },
        }
    } else {
        (c, Err(unsupported(Construct::SuffixUnaryExpressions)))
    }
}

/// The advisory that a kind of variable declaration gives, if any.
pub open spec fn kind_advisory(kind: VariableKind) -> Seq<Advisory> {
    match kind {
        VariableKind::Var => Seq::empty(),
        VariableKind::Let => seq![Advisory::LetTreatedAsVar],
        VariableKind::Const => seq![Advisory::ConstTreatedAsVar],
    }
}

/// Lowers one declarator: the name gets a new register, and the initializer,
/// if there is one, is lowered into it.
pub open spec fn lower_declarator(c: CompilerModel, declarator: VariableDeclView) -> Lowered {
    match declarator.id {
        PatView::Identifier(name) => {
            let (c1, register) = declare(c, name);
            match register {
                Err(error) => (c1, Err(error)),
                Ok(register) => match declarator.init {
                    Some(init) => lower_expr(c1, init, register),
                    None => (c1, Ok(Seq::empty())),
                },
            }
        },
        PatView::Array => (c, Err(unsupported(Construct::ArrayPatterns))),
        PatView::Object => (c, Err(unsupported(Construct::ObjectPatterns))),
        PatView::RestElement => (c, Err(unsupported(Construct::RestElements))),
        PatView::Assignment => (c, Err(unsupported(Construct::AssignmentPatterns))),
    }
}

/// Lowers the declarators from position `from` on, in order. The first
/// failure stops the walk; what earlier declarators did to the state stays.
pub open spec fn lower_declarators(
    c: CompilerModel,
    declarators: Seq<VariableDeclView>,
    from: int,
) -> Lowered
    decreases declarators.len() - from,
{
    if 0 <= from < declarators.len() {
        let (c1, first) = lower_declarator(c, declarators[from]);
        match first {
            Err(error) => (c1, Err(error)),
            Ok(first) => {
                let (c2, rest) = lower_declarators(c1, declarators, from + 1);
                match rest {
                    Err(error) => (c2, Err(error)),
                    Ok(rest) => (c2, Ok(first + rest)),
                }
            },
        }
    } else {
        (c, Ok(Seq::empty()))
    }
}

/// Lowers a variable declaration. All three kinds are lowered alike; `let`
/// and `const` give an advisory first.
pub open spec fn lower_var_decl(
    c: CompilerModel,
    kind: VariableKind,
    declarators: Seq<VariableDeclView>,
) -> Lowered {
    lower_declarators(
        CompilerModel { advisories: c.advisories + kind_advisory(kind), ..c },
        declarators,
        0,
    )
}

/// Lowers a return: the value, if there is one, is materialized, and the
/// return carries its register.
pub open spec fn lower_return(c: CompilerModel, value: Option<ExprView>) -> Lowered {
    match value {
        Some(value) => {
            let (c1, value) = materialize(c, value, None);
            match value {
                Err(error) => (c1, Err(error)),
                Ok((code, register)) => (c1, Ok(code.push(return_command(seq![register])))),
            }
        },
        None => (c, Ok(seq![return_command(Seq::empty())])),
    }
}

/// The name of a parameter, where the parameter is a plain name.
pub open spec fn parameter_name(parameter: FunctionArgView) -> Option<Seq<char>> {
    match parameter {
        FunctionArgView::Expr(ExprView::Ident(name)) => Some(name),
        FunctionArgView::Pat(PatView::Identifier(name)) => Some(name),
        _ => None,
    }
}

/// Binds the parameters from position `from` on, in order, each to a new
/// register. The first parameter that is not a plain name, or that finds no
/// register, stops the walk.
pub open spec fn bind_parameters(c: CompilerModel, parameters: Seq<FunctionArgView>, from: int) -> (
    CompilerModel,
    Result<Seq<Register>, CompilerErrorView>,
)
    decreases parameters.len() - from,
{
    if 0 <= from < parameters.len() {
        match parameter_name(parameters[from]) {
            None => (c, Err(unsupported(Construct::NonIdentifierParameters))),
            Some(name) => {
                let (c1, first) = declare(c, name);
                match first {
                    Err(error) => (c1, Err(error)),
                    Ok(first) => {
                        let (c2, rest) = bind_parameters(c1, parameters, from + 1);
                        match rest {
                            Err(error) => (c2, Err(error)),
                            Ok(rest) => (c2, Ok(seq![first] + rest)),
                        }
                    },
                }
            },
        }
    } else {
        (c, Ok(Seq::empty()))
    }
}

/// The body of a function as it is stored: with a return that carries no
/// value at its end, unless it ends with a return already.
pub open spec fn with_final_return(body: Seq<CommandView>) -> Seq<CommandView> {
    if ends_with_return(body) {
        body
    } else {
        body.push(return_command(Seq::empty()))
    }
}

/// Enters a scope.
pub open spec fn enter(c: CompilerModel) -> (CompilerModel, Result<(), CompilerErrorView>) {
    let (scopes, entered) = c.scopes.enter();
    (CompilerModel { scopes, ..c }, entered)
}

/// Leaves the current scope.
pub open spec fn leave(c: CompilerModel) -> (CompilerModel, Result<(), CompilerErrorView>) {
    let (scopes, left) = c.scopes.leave();
    (CompilerModel { scopes, ..c }, left)
}

/// Lowers one item of a program or of a function body.
pub open spec fn lower_part(c: CompilerModel, part: ProgramPartView) -> Lowered
    decreases part, 0nat,
{
    match part {
        ProgramPartView::Dir => (c, Err(unsupported(Construct::Directives))),
        ProgramPartView::Decl(decl) => lower_decl(c, decl),
        ProgramPartView::Stmt(stmt) => lower_stmt(c, stmt),
    }
}

/// Lowers the items from position `from` on, in order. The first failure
/// stops the walk.
pub open spec fn lower_parts(c: CompilerModel, parts: Seq<ProgramPartView>, from: int) -> Lowered
    decreases parts, parts.len() - from,
{
    if 0 <= from < parts.len() {
        let (c1, first) = lower_part(c, parts[from]);
        match first {
            Err(error) => (c1, Err(error)),
            Ok(first) => {
                let (c2, rest) = lower_parts(c1, parts, from + 1);
                match rest {
                    Err(error) => (c2, Err(error)),
                    Ok(rest) => (c2, Ok(first + rest)),
                }
            },
        }
    } else {
        (c, Ok(Seq::empty()))
    }
}

/// Lowers a declaration.
pub open spec fn lower_decl(c: CompilerModel, decl: DeclView) -> Lowered
    decreases decl, 0nat,
{
    match decl {
        DeclView::Variable(kind, declarators) => lower_var_decl(c, kind, declarators),
        DeclView::Function(function) => lower_function(c, function),
        DeclView::Class => (c, Err(unsupported(Construct::ClassDeclarations))),
        DeclView::Import => (c, Err(unsupported(Construct::ImportDeclarations))),
        DeclView::Export => (c, Err(unsupported(Construct::ExportDeclarations))),
    }
}

/// Lowers a statement. An expression statement puts its value into the
/// register that the next allocation will hand out, where it is lost. A
/// block is lowered item by item, in the scope in which it stands.
pub open spec fn lower_stmt(c: CompilerModel, stmt: StmtView) -> Lowered
    decreases stmt, 0nat,
{
    match stmt {
        StmtView::Expr(expr) => match c.scopes.throwaway() {
            Err(error) => (c, Err(error)),
            Ok(register) => lower_expr(c, expr, register),
        },
        StmtView::Block(parts) => lower_parts(c, parts, 0),
        StmtView::Empty => (c, Ok(Seq::empty())),
        StmtView::Debugger => (c, Err(unsupported(Construct::DebuggerStatements))),
        StmtView::With => (c, Err(unsupported(Construct::WithStatements))),
        StmtView::Return(value) => lower_return(c, value),
        StmtView::Labeled => (c, Err(unsupported(Construct::StatementType))),
        StmtView::Break => (c, Err(unsupported(Construct::StatementType))),
        StmtView::Continue => (c, Err(unsupported(Construct::StatementType))),
        StmtView::If => (c, Err(unsupported(Construct::StatementType))),
        StmtView::Switch => (c, Err(unsupported(Construct::StatementType))),
        StmtView::Throw => (c, Err(unsupported(Construct::ThrowStatements))),
        StmtView::Try => (c, Err(unsupported(Construct::TryStatements))),
        StmtView::While => (c, Err(unsupported(Construct::StatementType))),
        StmtView::DoWhile => (c, Err(unsupported(Construct::StatementType))),
        StmtView::For => (c, Err(unsupported(Construct::StatementType))),
        StmtView::ForIn => (c, Err(unsupported(Construct::ForInStatements))),
        StmtView::ForOf => (c, Err(unsupported(Construct::ForOfStatements))),
        StmtView::Var(declarators) => lower_var_decl(c, VariableKind::Var, declarators),
    }
}

/// Binds the name of a function, where it has one, in the current scope.
pub open spec fn declare_function_name(c: CompilerModel, function: FunctionView) -> (
    CompilerModel,
    Result<(), CompilerErrorView>,
) {
    match function.id {
        Some(name) => {
            let (c1, register) = declare(c, name);
            match register {
                Err(error) => (c1, Err(error)),
                Ok(_) => (c1, Ok(())),
            }
        },
        None => (c, Ok(())),
    }
}

/// Binds the name of a function in the current scope and enters the scope of
/// its body.
pub open spec fn open_function(c: CompilerModel, function: FunctionView) -> (
    CompilerModel,
    Result<(), CompilerErrorView>,
) {
    let (c1, named) = declare_function_name(c, function);
    match named {
        Err(error) => (c1, Err(error)),
        Ok(_) => enter(c1),
    }
}

/// Leaves the scope of the body of a function and stores the body, closed by
/// a return, with the registers of the parameters and the declaration.
pub open spec fn close_function(
    c: CompilerModel,
    function: FunctionView,
    arguments: Seq<Register>,
    body: Seq<CommandView>,
) -> Lowered {
    let (c1, left) = leave(c);
    match left {
        Err(error) => (c1, Err(error)),
        Ok(_) => (
            CompilerModel {
                functions: c1.functions.push(
                    FunctionModel {
                        bytecode: with_final_return(body),
                        arguments,
                        ast: Some(function),
                    },
                ),
                ..c1
            },
            Ok(Seq::empty()),
        ),
    }
}

/// Lowers a function declaration. The name is bound in the enclosing scope;
/// a new scope is entered; the parameters are bound; the body is lowered; the
/// scope is left; the body, closed by a return, is stored with the registers
/// of the parameters. Where the declaration stands, nothing is emitted. A
/// failure on the way leaves the state as it is at that point: the scope of
/// the body stays open.
pub open spec fn lower_function(c: CompilerModel, function: FunctionView) -> Lowered
    decreases function, 0nat,
{
    if function.generator || function.is_async {
        (c, Err(unsupported(Construct::GeneratorAndAsyncFunctions)))
    } else {
        let (c1, opened) = open_function(c, function);
        match opened {
            Err(error) => (c1, Err(error)),
            Ok(_) => {
                let (c2, arguments) = bind_parameters(c1, function.params, 0);
                match arguments {
                    Err(error) => (c2, Err(error)),
                    Ok(arguments) => {
                        let (c3, body) = lower_parts(c2, function.body, 0);
                        match body {
                            Err(error) => (c3, Err(error)),
                            Ok(body) => close_function(c3, function, arguments, body),
                        }
                    },
                }
            },
        }
    }
}

/// The bodies of the stored functions, one after the other.
pub open spec fn function_code(functions: Seq<FunctionModel>) -> Seq<CommandView>
    decreases functions.len(),
{
    if functions.len() == 0 {
        Seq::empty()
    } else {
        function_code(functions.drop_last()) + functions.last().bytecode
    }
}

/// The finished instruction stream: the top-level code alone where no
/// function body is stored; otherwise the top-level code, an exit, and the
/// function bodies.
pub open spec fn assemble(top: Seq<CommandView>, functions: Seq<FunctionModel>) -> Seq<
    CommandView,
> {
    if function_code(functions).len() == 0 {
        top
    } else {
        top.push(bare_command(Instruction::Exit)) + function_code(functions)
    }
}

/// Compiles a program: a module is refused; the items of a script are
/// lowered in order and the result is assembled with the function bodies
/// that the compiler holds afterwards.
pub open spec fn compile_program(c: CompilerModel, program: ProgramView) -> Lowered {
    match program {
        ProgramView::Mod(_) => (c, Err(unsupported(Construct::Modules))),
        ProgramView::Script(parts) => {
            let (c1, top) = lower_parts(c, parts, 0);
            match top {
                Err(error) => (c1, Err(error)),
                Ok(top) => (c1, Ok(assemble(top, c1.functions))),
            }
        },
    }
}

} // verus!
