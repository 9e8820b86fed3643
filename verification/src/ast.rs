//! The syntax tree that the compiler consumes.
//!
//! The tree follows the usual ESTree shape. Constructs that the compiler can
//! lower carry their children; constructs that it only recognises in order to
//! reject them are kept as bare variants, so that every node of a parsed
//! program has exactly one counterpart here.

use vstd::prelude::*;
use crate::ast_view::{declarator_views, expr_views, parameter_views, part_views};

verus! {

/// A source-level name.
pub type Identifier = String;

/// A parsed program: either an ES module or a classic script.
#[derive(Debug, PartialEq)]
pub enum Program {
    /// An ES module. Modules are recognised but never compiled.
    Mod(Vec<ProgramPart>),
    /// A script: a list of top-level items in source order.
    Script(Vec<ProgramPart>),
}

/// One top-level item of a program or of a function body.
#[derive(Debug, PartialEq)]
pub enum ProgramPart {
    /// A directive such as `'use strict'`.
    Dir,
    /// A declaration.
    Decl(Decl),
    /// A statement.
    Stmt(Stmt),
}

/// A declaration.
#[derive(Debug, PartialEq)]
pub enum Decl {
    /// `var a, b = 1;` and its `let` / `const` forms.
    Variable(VariableKind, Vec<VariableDecl>),
    /// `function f(a, b) { ... }`
    Function(Function),
    /// `class C { ... }`
    Class,
    /// `import ... from '...'`
    Import,
    /// `export ...`
    Export,
}

/// The keyword that introduced a variable declaration.
#[derive(Debug, Clone, Copy, PartialEq, Eq)]
pub enum VariableKind {
    Var,
    Let,
    Const,
}

/// One declarator of a variable declaration: a binding target and an
/// optional initializer.
#[derive(Debug, PartialEq)]
pub struct VariableDecl {
    pub id: Pat,
    pub init: Option<Expr>,
}

/// A binding pattern.
#[derive(Debug, PartialEq)]
pub enum Pat {
    /// A plain name.
    Identifier(Identifier),
    /// `{a, b}`
    Object,
    /// `[a, b]`
    Array,
    /// `...rest`
    RestElement,
    /// `a = 1` in pattern position.
    Assignment,
}

/// A function: a declaration when it stands alone, an expression otherwise.
#[derive(Debug, PartialEq)]
pub struct Function {
    pub id: Option<Identifier>,
    pub params: Vec<FunctionArg>,
    pub body: Vec<ProgramPart>,
    pub generator: bool,
    pub is_async: bool,
}

/// One parameter of a function signature.
#[derive(Debug, PartialEq)]
pub enum FunctionArg {
    Expr(Expr),
    Pat(Pat),
}

/// A statement.
#[derive(Debug, PartialEq)]
pub enum Stmt {
    /// An expression evaluated for its effect.
    Expr(Expr),
    /// `{ ... }`
    Block(Vec<ProgramPart>),
    /// `;`
    Empty,
    /// `debugger;`
    Debugger,
    /// `with (o) ...`
    With,
    /// `return;` or `return e;`
    Return(Option<Expr>),
    /// `label: ...`
    Labeled,
    /// `break;`
    Break,
    /// `continue;`
    Continue,
    /// `if (c) ... else ...`
    If,
    /// `switch (e) { ... }`
    Switch,
    /// `throw e;`
    Throw,
    /// `try { ... } catch ... finally ...`
    Try,
    /// `while (c) ...`
    While,
    /// `do ... while (c);`
    DoWhile,
    /// `for (;;) ...`
    For,
    /// `for (k in o) ...`
    ForIn,
    /// `for (v of o) ...`
    ForOf,
    /// `var a, b = 1;` in statement position.
    Var(Vec<VariableDecl>),
}

/// An expression.
#[derive(Debug, PartialEq)]
pub enum Expr {
    /// `[a, b]`
    Array,
    /// `(a) => b`
    ArrowFunction,
    /// A parenthesised parameter list that was not followed by `=>`.
    ArrowParamPlaceHolder,
    /// `a = b`, `a += b`, ...
    Assignment(AssignmentExpr),
    /// `await e`
    Await,
    /// `a + b`, `a < b`, ...
    Binary,
    /// `class { ... }`
    Class,
    /// `f(a, b)`
    Call(CallExpr),
    /// `c ? a : b`
    Conditional,
    /// `function () { ... }`
    Function,
    /// A name.
    Ident(Identifier),
    /// A literal value.
    Literal(Literal),
    /// `a && b`, `a || b`
    Logical,
    /// `o.p` or `o[p]`
    Member(MemberExpr),
    /// `new.target`
    MetaProperty,
    /// `new C(a)`
    New,
    /// `{a: 1}`
    Object,
    /// `a, b`
    Sequence,
    /// `...a`
    Spread,
    /// `super`
    Super,
    /// `` tag`text` ``
    TaggedTemplate,
    /// `this`
    This,
    /// `-a`, `!a`, `typeof a`, ...
    Unary(UnaryExpr),
    /// `++a`, `a--`, ...
    Update(UpdateExpr),
    /// `yield e`
    Yield,
}

/// A literal as written in the source.
#[derive(Debug, PartialEq)]
pub enum Literal {
    /// `null`
    Null,
    /// The text of a string literal.
    String(String),
    /// The text of a numeric literal.
    Number(String),
    /// `true` or `false`
    Boolean(bool),
    /// `/pattern/flags`
    RegEx,
    /// `` `text ${e}` ``
    Template,
}

/// An operation with one operand.
#[derive(Debug, PartialEq)]
pub struct UnaryExpr {
    pub operator: UnaryOperator,
    /// Whether the operator stands before its operand.
    pub prefix: bool,
    pub argument: Box<Expr>,
}

#[derive(Debug, Clone, Copy, PartialEq, Eq)]
pub enum UnaryOperator {
    Minus,
    Plus,
    Not,
    Tilde,
    TypeOf,
    Void,
    Delete,
}

/// An increment or a decrement.
#[derive(Debug, PartialEq)]
pub struct UpdateExpr {
    pub operator: UpdateOperator,
    pub argument: Box<Expr>,
    /// Whether the operator stands before its operand.
    pub prefix: bool,
}

#[derive(Debug, Clone, Copy, PartialEq, Eq)]
pub enum UpdateOperator {
    Increment,
    Decrement,
}

#[derive(Debug, Clone, Copy, PartialEq, Eq)]
pub enum BinaryOperator {
    Equal,
    NotEqual,
    StrictEqual,
    StrictNotEqual,
    LessThan,
    GreaterThan,
    LessThanEqual,
    GreaterThanEqual,
    LeftShift,
    RightShift,
    UnsignedRightShift,
    Plus,
    Minus,
    Times,
    Over,
    Mod,
    Or,
    XOr,
    And,
    In,
    InstanceOf,
    PowerOf,
}

/// An assignment, plain or compound.
#[derive(Debug, PartialEq)]
pub struct AssignmentExpr {
    pub operator: AssignmentOperator,
    pub left: AssignmentLeft,
    pub right: Box<Expr>,
}

/// The target of an assignment.
#[derive(Debug, PartialEq)]
pub enum AssignmentLeft {
    Pat(Pat),
    Expr(Box<Expr>),
}

#[derive(Debug, Clone, Copy, PartialEq, Eq)]
pub enum AssignmentOperator {
    Equal,
    PlusEqual,
    MinusEqual,
    TimesEqual,
    DivEqual,
    ModEqual,
    LeftShiftEqual,
    RightShiftEqual,
    UnsignedRightShiftEqual,
    OrEqual,
    XOrEqual,
    AndEqual,
    PowerOfEqual,
}

/// A property access.
#[derive(Debug, PartialEq)]
pub struct MemberExpr {
    pub object: Box<Expr>,
    pub property: Box<Expr>,
    /// Whether the property was written in brackets.
    pub computed: bool,
}

/// A function call.
#[derive(Debug, PartialEq)]
pub struct CallExpr {
    pub callee: Box<Expr>,
    pub arguments: Vec<Expr>,
}

/// A copy of a list of expressions.
fn clone_exprs(exprs: &Vec<Expr>) -> (copies: Vec<Expr>)
    ensures
        expr_views(copies@) == expr_views(exprs@),
    decreases exprs, 1nat,
{
    let mut copies: Vec<Expr> = Vec::new();
    let mut i: usize = 0;
    while i < exprs.len()
        invariant
            i <= exprs.len(),
            copies.len() == i,
            forall|k: int| 0 <= k < i ==> copies[k]@ == exprs[k]@,
        decreases exprs.len() - i,
    {
        copies.push(exprs[i].clone());
        i += 1;
    }
    assert(expr_views(copies@) =~= expr_views(exprs@));
    copies
}

/// A copy of a list of program parts.
fn clone_parts(parts: &Vec<ProgramPart>) -> (copies: Vec<ProgramPart>)
    ensures
        part_views(copies@) == part_views(parts@),
    decreases parts, 1nat,
{
    let mut copies: Vec<ProgramPart> = Vec::new();
    let mut i: usize = 0;
    while i < parts.len()
        invariant
            i <= parts.len(),
            copies.len() == i,
            forall|k: int| 0 <= k < i ==> copies[k]@ == parts[k]@,
        decreases parts.len() - i,
    {
        copies.push(parts[i].clone());
        i += 1;
    }
    assert(part_views(copies@) =~= part_views(parts@));
    copies
}

/// A copy of a list of declarators.
fn clone_declarators(declarators: &Vec<VariableDecl>) -> (copies: Vec<VariableDecl>)
    ensures
        declarator_views(copies@) == declarator_views(declarators@),
{
    let mut copies: Vec<VariableDecl> = Vec::new();
    let mut i: usize = 0;
    while i < declarators.len()
        invariant
            i <= declarators.len(),
            copies.len() == i,
            forall|k: int| 0 <= k < i ==> copies[k]@ == declarators[k]@,
        decreases declarators.len() - i,
    {
        copies.push(declarators[i].clone());
        i += 1;
    }
    assert(declarator_views(copies@) =~= declarator_views(declarators@));
    copies
}

/// A copy of a list of parameters.
fn clone_parameters(parameters: &Vec<FunctionArg>) -> (copies: Vec<FunctionArg>)
    ensures
        parameter_views(copies@) == parameter_views(parameters@),
{
    let mut copies: Vec<FunctionArg> = Vec::new();
    let mut i: usize = 0;
    while i < parameters.len()
        invariant
            i <= parameters.len(),
            copies.len() == i,
            forall|k: int| 0 <= k < i ==> copies[k]@ == parameters[k]@,
        decreases parameters.len() - i,
    {
        copies.push(parameters[i].clone());
        i += 1;
    }
    assert(parameter_views(copies@) =~= parameter_views(parameters@));
    copies
}

impl Clone for Pat {
    fn clone(&self) -> (copy: Self)
        ensures
            copy@ == self@,
    {
        match self {
            Pat::Identifier(name) => Pat::Identifier(name.clone()),
            Pat::Object => Pat::Object,
            Pat::Array => Pat::Array,
            Pat::RestElement => Pat::RestElement,
            Pat::Assignment => Pat::Assignment,
        }
    }
}

impl Clone for Literal {
    fn clone(&self) -> (copy: Self)
        ensures
            copy@ == self@,
    {
        match self {
            Literal::Null => Literal::Null,
            Literal::String(text) => Literal::String(text.clone()),
            Literal::Number(text) => Literal::Number(text.clone()),
            Literal::Boolean(value) => Literal::Boolean(*value),
            Literal::RegEx => Literal::RegEx,
            Literal::Template => Literal::Template,
        }
    }
}

impl Clone for Expr {
    fn clone(&self) -> (copy: Self)
        ensures
            copy@ == self@,
        decreases self, 0nat,
    {
        match self {
            Expr::Array => Expr::Array,
            Expr::ArrowFunction => Expr::ArrowFunction,
            Expr::ArrowParamPlaceHolder => Expr::ArrowParamPlaceHolder,
            Expr::Assignment(assignment) => Expr::Assignment(assignment.clone()),
            Expr::Await => Expr::Await,
            Expr::Binary => Expr::Binary,
            Expr::Class => Expr::Class,
            Expr::Call(call) => Expr::Call(call.clone()),
            Expr::Conditional => Expr::Conditional,
            Expr::Function => Expr::Function,
            Expr::Ident(name) => Expr::Ident(name.clone()),
            Expr::Literal(literal) => Expr::Literal(literal.clone()),
            Expr::Logical => Expr::Logical,
            Expr::Member(member) => Expr::Member(member.clone()),
            Expr::MetaProperty => Expr::MetaProperty,
            Expr::New => Expr::New,
            Expr::Object => Expr::Object,
            Expr::Sequence => Expr::Sequence,
            Expr::Spread => Expr::Spread,
            Expr::Super => Expr::Super,
            Expr::TaggedTemplate => Expr::TaggedTemplate,
            Expr::This => Expr::This,
            Expr::Unary(unary) => Expr::Unary(unary.clone()),
            Expr::Update(update) => Expr::Update(update.clone()),
            Expr::Yield => Expr::Yield,
        }
    }
}

impl Clone for UnaryExpr {
    fn clone(&self) -> (copy: Self)
        ensures
            copy@ == self@,
        decreases self, 0nat,
    {
        UnaryExpr {
            operator: self.operator,
            prefix: self.prefix,
            argument: Box::new((*self.argument).clone()),
        }
    }
}

impl Clone for UpdateExpr {
    fn clone(&self) -> (copy: Self)
        ensures
            copy@ == self@,
        decreases self, 0nat,
    {
        UpdateExpr {
            operator: self.operator,
            argument: Box::new((*self.argument).clone()),
            prefix: self.prefix,
        }
    }
}

impl Clone for AssignmentExpr {
    fn clone(&self) -> (copy: Self)
        ensures
            copy@ == self@,
        decreases self, 0nat,
    {
        let left = match &self.left {
            AssignmentLeft::Pat(pat) => AssignmentLeft::Pat(pat.clone()),
            AssignmentLeft::Expr(expr) => AssignmentLeft::Expr(Box::new((**expr).clone())),
        };
        AssignmentExpr { operator: self.operator, left, right: Box::new((*self.right).clone()) }
    }
}

impl Clone for AssignmentLeft {
    fn clone(&self) -> (copy: Self)
        ensures
            copy@ == self@,
    {
        match self {
            AssignmentLeft::Pat(pat) => AssignmentLeft::Pat(pat.clone()),
            AssignmentLeft::Expr(expr) => AssignmentLeft::Expr(Box::new((**expr).clone())),
        }
    }
}

impl Clone for MemberExpr {
    fn clone(&self) -> (copy: Self)
        ensures
            copy@ == self@,
        decreases self, 0nat,
    {
        MemberExpr {
            object: Box::new((*self.object).clone()),
            property: Box::new((*self.property).clone()),
            computed: self.computed,
        }
    }
}

impl Clone for CallExpr {
    fn clone(&self) -> (copy: Self)
        ensures
            copy@ == self@,
        decreases self, 0nat,
    {
        CallExpr {
            callee: Box::new((*self.callee).clone()),
            arguments: clone_exprs(&self.arguments),
        }
    }
}

impl Clone for VariableDecl {
    fn clone(&self) -> (copy: Self)
        ensures
            copy@ == self@,
    {
        VariableDecl {
            id: self.id.clone(),
            init: match &self.init {
                Some(init) => Some(init.clone()),
                None => None,
            },
        }
    }
}

impl Clone for FunctionArg {
    fn clone(&self) -> (copy: Self)
        ensures
            copy@ == self@,
    {
        match self {
            FunctionArg::Expr(expr) => FunctionArg::Expr(expr.clone()),
            FunctionArg::Pat(pat) => FunctionArg::Pat(pat.clone()),
        }
    }
}

impl Clone for Function {
    fn clone(&self) -> (copy: Self)
        ensures
            copy@ == self@,
        decreases self, 0nat,
    {
        Function {
            id: match &self.id {
                Some(name) => Some(name.clone()),
                None => None,
            },
            params: clone_parameters(&self.params),
            body: clone_parts(&self.body),
            generator: self.generator,
            is_async: self.is_async,
        }
    }
}

impl Clone for Decl {
    fn clone(&self) -> (copy: Self)
        ensures
            copy@ == self@,
        decreases self, 0nat,
    {
        match self {
            Decl::Variable(kind, declarators) => Decl::Variable(
                *kind,
                clone_declarators(declarators),
            ),
            Decl::Function(function) => Decl::Function(function.clone()),
            Decl::Class => Decl::Class,
            Decl::Import => Decl::Import,
            Decl::Export => Decl::Export,
        }
    }
}

impl Clone for Stmt {
    fn clone(&self) -> (copy: Self)
        ensures
            copy@ == self@,
        decreases self, 0nat,
    {
        match self {
            Stmt::Expr(expr) => Stmt::Expr(expr.clone()),
            Stmt::Block(parts) => Stmt::Block(clone_parts(parts)),
            Stmt::Empty => Stmt::Empty,
            Stmt::Debugger => Stmt::Debugger,
            Stmt::With => Stmt::With,
            Stmt::Return(value) => Stmt::Return(
                match value {
                    Some(value) => Some(value.clone()),
                    None => None,
                },
            ),
            Stmt::Labeled => Stmt::Labeled,
            Stmt::Break => Stmt::Break,
            Stmt::Continue => Stmt::Continue,
            Stmt::If => Stmt::If,
            Stmt::Switch => Stmt::Switch,
            Stmt::Throw => Stmt::Throw,
            Stmt::Try => Stmt::Try,
            Stmt::While => Stmt::While,
            Stmt::DoWhile => Stmt::DoWhile,
            Stmt::For => Stmt::For,
            Stmt::ForIn => Stmt::ForIn,
            Stmt::ForOf => Stmt::ForOf,
            Stmt::Var(declarators) => Stmt::Var(clone_declarators(declarators)),
        }
    }
}

impl Clone for ProgramPart {
    fn clone(&self) -> (copy: Self)
        ensures
            copy@ == self@,
        decreases self, 0nat,
    {
        match self {
            ProgramPart::Dir => ProgramPart::Dir,
            ProgramPart::Decl(decl) => ProgramPart::Decl(decl.clone()),
            ProgramPart::Stmt(stmt) => ProgramPart::Stmt(stmt.clone()),
        }
    }
}

impl Clone for Program {
    fn clone(&self) -> (copy: Self)
        ensures
            copy@ == self@,
    {
        match self {
            Program::Mod(parts) => Program::Mod(clone_parts(parts)),
            Program::Script(parts) => Program::Script(clone_parts(parts)),
        }
    }
}

} // verus!
