//! The syntax tree as a mathematical value.
//!
//! Every type of [`crate::ast`] has a view here, of the same shape, in which
//! strings are sequences of characters and lists are sequences. What the
//! compiler does to a tree is stated of its view.

use vstd::prelude::*;
use crate::ast::{
    AssignmentExpr, AssignmentLeft, AssignmentOperator, CallExpr, Decl, Expr, Function,
    FunctionArg, Literal, MemberExpr, Pat, Program, ProgramPart, Stmt, UnaryExpr,
    UnaryOperator, UpdateExpr, UpdateOperator, VariableDecl, VariableKind,
};

verus! {

/// The value of a [`Program`].
pub enum ProgramView {
    Mod(Seq<ProgramPartView>),
    Script(Seq<ProgramPartView>),
}

/// The value of a [`ProgramPart`].
pub enum ProgramPartView {
    Dir,
    Decl(DeclView),
    Stmt(StmtView),
}

/// The value of a [`Decl`].
pub enum DeclView {
    Variable(VariableKind, Seq<VariableDeclView>),
    Function(FunctionView),
    Class,
    Import,
    Export,
}

/// The value of a [`VariableDecl`].
pub struct VariableDeclView {
    pub id: PatView,
    pub init: Option<ExprView>,
}

/// The value of a [`Pat`].
pub enum PatView {
    Identifier(Seq<char>),
    Object,
    Array,
    RestElement,
    Assignment,
}

/// The value of a [`Function`].
pub struct FunctionView {
    pub id: Option<Seq<char>>,
    pub params: Seq<FunctionArgView>,
    pub body: Seq<ProgramPartView>,
    pub generator: bool,
    pub is_async: bool,
}

/// The value of a [`FunctionArg`].
pub enum FunctionArgView {
    Expr(ExprView),
    Pat(PatView),
}

/// The value of a [`Stmt`].
pub enum StmtView {
    Expr(ExprView),
    Block(Seq<ProgramPartView>),
    Empty,
    Debugger,
    With,
    Return(Option<ExprView>),
    Labeled,
    Break,
    Continue,
    If,
    Switch,
    Throw,
    Try,
    While,
    DoWhile,
    For,
    ForIn,
    ForOf,
    Var(Seq<VariableDeclView>),
}

/// The value of an [`Expr`].
pub enum ExprView {
    Array,
    ArrowFunction,
    ArrowParamPlaceHolder,
    Assignment(AssignmentExprView),
    Await,
    Binary,
    Class,
    Call(CallExprView),
    Conditional,
    Function,
    Ident(Seq<char>),
    Literal(LiteralView),
    Logical,
    Member(MemberExprView),
    MetaProperty,
    New,
    Object,
    Sequence,
    Spread,
    Super,
    TaggedTemplate,
    This,
    Unary(UnaryExprView),
    Update(UpdateExprView),
    Yield,
}

/// The value of a [`Literal`].
pub enum LiteralView {
    Null,
    String(Seq<char>),
    Number(Seq<char>),
    Boolean(bool),
    RegEx,
    Template,
}

/// The value of a [`UnaryExpr`].
pub struct UnaryExprView {
    pub operator: UnaryOperator,
    pub prefix: bool,
    pub argument: Box<ExprView>,
}

/// The value of an [`UpdateExpr`].
pub struct UpdateExprView {
    pub operator: UpdateOperator,
    pub argument: Box<ExprView>,
    pub prefix: bool,
}

/// The value of an [`AssignmentExpr`].
pub struct AssignmentExprView {
    pub operator: AssignmentOperator,
    pub left: AssignmentLeftView,
    pub right: Box<ExprView>,
}

/// The value of an [`AssignmentLeft`].
pub enum AssignmentLeftView {
    Pat(PatView),
    Expr(Box<ExprView>),
}

/// The value of a [`MemberExpr`].
pub struct MemberExprView {
    pub object: Box<ExprView>,
    pub property: Box<ExprView>,
    pub computed: bool,
}

/// The value of a [`CallExpr`].
pub struct CallExprView {
    pub callee: Box<ExprView>,
    pub arguments: Seq<ExprView>,
}

/// The value of a pattern.
pub open spec fn pat_view(pat: Pat) -> PatView {
    match pat {
        Pat::Identifier(name) => PatView::Identifier(name@),
        Pat::Object => PatView::Object,
        Pat::Array => PatView::Array,
        Pat::RestElement => PatView::RestElement,
        Pat::Assignment => PatView::Assignment,
    }
}

/// The value of a literal.
pub open spec fn literal_view(literal: Literal) -> LiteralView {
    match literal {
        Literal::Null => LiteralView::Null,
        Literal::String(text) => LiteralView::String(text@),
        Literal::Number(text) => LiteralView::Number(text@),
        Literal::Boolean(value) => LiteralView::Boolean(value),
        Literal::RegEx => LiteralView::RegEx,
        Literal::Template => LiteralView::Template,
    }
}

/// The value of an expression.
pub open spec fn expr_view(expr: Expr) -> ExprView
    decreases expr,
{
    match expr {
        Expr::Array => ExprView::Array,
        Expr::ArrowFunction => ExprView::ArrowFunction,
        Expr::ArrowParamPlaceHolder => ExprView::ArrowParamPlaceHolder,
        Expr::Assignment(assignment) => ExprView::Assignment(assignment_view(assignment)),
        Expr::Await => ExprView::Await,
        Expr::Binary => ExprView::Binary,
        Expr::Class => ExprView::Class,
        Expr::Call(call) => ExprView::Call(call_view(call)),
        Expr::Conditional => ExprView::Conditional,
        Expr::Function => ExprView::Function,
        Expr::Ident(name) => ExprView::Ident(name@),
        Expr::Literal(literal) => ExprView::Literal(literal_view(literal)),
        Expr::Logical => ExprView::Logical,
        Expr::Member(member) => ExprView::Member(member_view(member)),
        Expr::MetaProperty => ExprView::MetaProperty,
        Expr::New => ExprView::New,
        Expr::Object => ExprView::Object,
        Expr::Sequence => ExprView::Sequence,
        Expr::Spread => ExprView::Spread,
        Expr::Super => ExprView::Super,
        Expr::TaggedTemplate => ExprView::TaggedTemplate,
        Expr::This => ExprView::This,
        Expr::Unary(unary) => ExprView::Unary(unary_view(unary)),
        Expr::Update(update) => ExprView::Update(update_view(update)),
        Expr::Yield => ExprView::Yield,
    }
}

/// The values of a list of expressions.
pub open spec fn expr_views(exprs: Seq<Expr>) -> Seq<ExprView>
    decreases exprs,
{
    Seq::new(
        exprs.len(),
        |i: int|
            if 0 <= i < exprs.len() {
                expr_view(exprs[i])
            } else {
                arbitrary()
            },
    )
}

/// The value of an operation with one operand.
pub open spec fn unary_view(unary: UnaryExpr) -> UnaryExprView
    decreases unary,
{
    UnaryExprView {
        operator: unary.operator,
        prefix: unary.prefix,
        argument: Box::new(expr_view(*unary.argument)),
    }
}

/// The value of an increment or decrement.
pub open spec fn update_view(update: UpdateExpr) -> UpdateExprView
    decreases update,
{
    UpdateExprView {
        operator: update.operator,
        argument: Box::new(expr_view(*update.argument)),
        prefix: update.prefix,
    }
}

/// The value of the target of an assignment.
pub open spec fn assignment_left_view(left: AssignmentLeft) -> AssignmentLeftView
    decreases left,
{
    match left {
        AssignmentLeft::Pat(pat) => AssignmentLeftView::Pat(pat_view(pat)),
        AssignmentLeft::Expr(expr) => AssignmentLeftView::Expr(Box::new(expr_view(*expr))),
    }
}

/// The value of an assignment.
pub open spec fn assignment_view(assignment: AssignmentExpr) -> AssignmentExprView
    decreases assignment,
{
    AssignmentExprView {
        operator: assignment.operator,
        left: assignment_left_view(assignment.left),
        right: Box::new(expr_view(*assignment.right)),
    }
}

/// The value of a property access.
pub open spec fn member_view(member: MemberExpr) -> MemberExprView
    decreases member,
{
    MemberExprView {
        object: Box::new(expr_view(*member.object)),
        property: Box::new(expr_view(*member.property)),
        computed: member.computed,
    }
}

/// The value of a call.
pub open spec fn call_view(call: CallExpr) -> CallExprView
    decreases call,
{
    CallExprView {
        callee: Box::new(expr_view(*call.callee)),
        arguments: expr_views(call.arguments@),
    }
}

/// The value of an expression that may be absent.
pub open spec fn optional_expr_view(expr: Option<Expr>) -> Option<ExprView> {
    match expr {
        Some(expr) => Some(expr_view(expr)),
        None => None,
    }
}

/// The value of a declarator.
pub open spec fn declarator_view(declarator: VariableDecl) -> VariableDeclView {
    VariableDeclView { id: pat_view(declarator.id), init: optional_expr_view(declarator.init) }
}

/// The values of a list of declarators.
pub open spec fn declarator_views(declarators: Seq<VariableDecl>) -> Seq<VariableDeclView> {
    Seq::new(declarators.len(), |i: int| declarator_view(declarators[i]))
}

/// The value of a parameter.
pub open spec fn parameter_view(parameter: FunctionArg) -> FunctionArgView {
    match parameter {
        FunctionArg::Expr(expr) => FunctionArgView::Expr(expr_view(expr)),
        FunctionArg::Pat(pat) => FunctionArgView::Pat(pat_view(pat)),
    }
}

/// The values of a list of parameters.
pub open spec fn parameter_views(parameters: Seq<FunctionArg>) -> Seq<FunctionArgView> {
    Seq::new(parameters.len(), |i: int| parameter_view(parameters[i]))
}

/// The value of a name that may be absent.
pub open spec fn optional_name_view(name: Option<String>) -> Option<Seq<char>> {
    match name {
        Some(name) => Some(name@),
        None => None,
    }
}

/// The value of an item.
pub open spec fn part_view(part: ProgramPart) -> ProgramPartView
    decreases part,
{
    match part {
        ProgramPart::Dir => ProgramPartView::Dir,
        ProgramPart::Decl(decl) => ProgramPartView::Decl(decl_view(decl)),
        ProgramPart::Stmt(stmt) => ProgramPartView::Stmt(stmt_view(stmt)),
    }
}

/// The values of a list of items.
pub open spec fn part_views(parts: Seq<ProgramPart>) -> Seq<ProgramPartView>
    decreases parts,
{
    Seq::new(
        parts.len(),
        |i: int|
            if 0 <= i < parts.len() {
                part_view(parts[i])
            } else {
                arbitrary()
            },
    )
}

/// The value of a declaration.
pub open spec fn decl_view(decl: Decl) -> DeclView
    decreases decl,
{
    match decl {
        Decl::Variable(kind, declarators) => DeclView::Variable(
            kind,
            declarator_views(declarators@),
        ),
        Decl::Function(function) => DeclView::Function(function_view(function)),
        Decl::Class => DeclView::Class,
        Decl::Import => DeclView::Import,
        Decl::Export => DeclView::Export,
    }
}

/// The value of a function.
pub open spec fn function_view(function: Function) -> FunctionView
    decreases function,
{
    FunctionView {
        id: optional_name_view(function.id),
        params: parameter_views(function.params@),
        body: part_views(function.body@),
        generator: function.generator,
        is_async: function.is_async,
    }
}

/// The value of a statement.
pub open spec fn stmt_view(stmt: Stmt) -> StmtView
    decreases stmt,
{
    match stmt {
        Stmt::Expr(expr) => StmtView::Expr(expr_view(expr)),
        Stmt::Block(parts) => StmtView::Block(part_views(parts@)),
        Stmt::Empty => StmtView::Empty,
        Stmt::Debugger => StmtView::Debugger,
        Stmt::With => StmtView::With,
        Stmt::Return(value) => StmtView::Return(optional_expr_view(value)),
        Stmt::Labeled => StmtView::Labeled,
        Stmt::Break => StmtView::Break,
        Stmt::Continue => StmtView::Continue,
        Stmt::If => StmtView::If,
        Stmt::Switch => StmtView::Switch,
        Stmt::Throw => StmtView::Throw,
        Stmt::Try => StmtView::Try,
        Stmt::While => StmtView::While,
        Stmt::DoWhile => StmtView::DoWhile,
        Stmt::For => StmtView::For,
        Stmt::ForIn => StmtView::ForIn,
        Stmt::ForOf => StmtView::ForOf,
        Stmt::Var(declarators) => StmtView::Var(declarator_views(declarators@)),
    }
}

/// The value of a program.
pub open spec fn program_view(program: Program) -> ProgramView {
    match program {
        Program::Mod(parts) => ProgramView::Mod(part_views(parts@)),
        Program::Script(parts) => ProgramView::Script(part_views(parts@)),
    }
}

impl View for Program {
    type V = ProgramView;

    open spec fn view(&self) -> ProgramView {
        program_view(*self)
    }
}

impl View for ProgramPart {
    type V = ProgramPartView;

    open spec fn view(&self) -> ProgramPartView {
        part_view(*self)
    }
}

impl View for Decl {
    type V = DeclView;

    open spec fn view(&self) -> DeclView {
        decl_view(*self)
    }
}

impl View for VariableDecl {
    type V = VariableDeclView;

    open spec fn view(&self) -> VariableDeclView {
        declarator_view(*self)
    }
}

impl View for Pat {
    type V = PatView;

    open spec fn view(&self) -> PatView {
        pat_view(*self)
    }
}

impl View for Function {
    type V = FunctionView;

    open spec fn view(&self) -> FunctionView {
        function_view(*self)
    }
}

impl View for FunctionArg {
    type V = FunctionArgView;

    open spec fn view(&self) -> FunctionArgView {
        parameter_view(*self)
    }
}

impl View for Stmt {
    type V = StmtView;

    open spec fn view(&self) -> StmtView {
        stmt_view(*self)
    }
}

impl View for Expr {
    type V = ExprView;

    open spec fn view(&self) -> ExprView {
        expr_view(*self)
    }
}

impl View for Literal {
    type V = LiteralView;

    open spec fn view(&self) -> LiteralView {
        literal_view(*self)
    }
}

impl View for UnaryExpr {
    type V = UnaryExprView;

    open spec fn view(&self) -> UnaryExprView {
        unary_view(*self)
    }
}

impl View for UpdateExpr {
    type V = UpdateExprView;

    open spec fn view(&self) -> UpdateExprView {
        update_view(*self)
    }
}

impl View for AssignmentExpr {
    type V = AssignmentExprView;

    open spec fn view(&self) -> AssignmentExprView {
        assignment_view(*self)
    }
}

impl View for AssignmentLeft {
    type V = AssignmentLeftView;

    open spec fn view(&self) -> AssignmentLeftView {
        assignment_left_view(*self)
    }
}

impl View for MemberExpr {
    type V = MemberExprView;

    open spec fn view(&self) -> MemberExprView {
        member_view(*self)
    }
}

impl View for CallExpr {
    type V = CallExprView;

    open spec fn view(&self) -> CallExprView {
        call_view(*self)
    }
}

} // verus!
