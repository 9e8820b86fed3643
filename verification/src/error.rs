//! The ways in which a compilation can fail, and the advisories it can give.

use vstd::prelude::*;
use crate::ast::{AssignmentOperator, BinaryOperator, UnaryOperator};

verus! {

/// A language construct that the compiler recognises and refuses.
#[derive(Debug, Clone, Copy, PartialEq, Eq)]
pub enum Construct {
    Modules,
    Directives,
    ClassDeclarations,
    ImportDeclarations,
    ExportDeclarations,
    ArrayPatterns,
    ObjectPatterns,
    RestElements,
    AssignmentPatterns,
    DebuggerStatements,
    WithStatements,
    ThrowStatements,
    TryStatements,
    ForInStatements,
    ForOfStatements,
    /// Any other statement form that has no lowering.
    StatementType,
    ArrowFunctions,
    ArrowParameterPlaceholders,
    AwaitExpressions,
    ClassExpressions,
    FunctionExpressions,
    MetaProperties,
    SpreadExpressions,
    SuperExpressions,
    TaggedTemplateExpressions,
    YieldExpressions,
    /// Any other expression form that has no lowering.
    ExpressionType,
    PatternsInAssignments,
    SuffixUpdateExpressions,
    SuffixUnaryExpressions,
    GeneratorAndAsyncFunctions,
    /// A function parameter that is not a plain name.
    NonIdentifierParameters,
    /// `void`, which has no instruction of its own.
    VoidOperator,
    /// A unary operator without an instruction.
    UnaryOperation(UnaryOperator),
    /// A binary operator without an instruction.
    BinaryOperation(BinaryOperator),
    /// A compound assignment operator without an instruction.
    AssignmentOperation(AssignmentOperator),
    NullLiterals,
    BooleanLiterals,
    RegExLiterals,
    TemplateLiterals,
}

/// Why a compilation was abandoned.
///
/// Every error is fatal to the compilation in which it occurs: the first one
/// is handed to the caller and no bytecode is produced.
#[derive(Debug, Clone, PartialEq, Eq)]
pub enum CompilerError {
    /// The program uses a construct that the compiler does not support.
    Unsupported(Construct),
    /// A register was needed and the pool of free registers was empty.
    RegistersExhausted,
    /// A name was used that the current scope does not bind.
    UndeclaredIdentifier(String),
    /// A scope was needed and the scope stack was empty.
    NoCurrentScope,
    /// A scope was to be left and the scope stack was empty.
    NoScopeToLeave,
}

/// The mathematical value of a [`CompilerError`].
pub enum CompilerErrorView {
    Unsupported(Construct),
    RegistersExhausted,
    UndeclaredIdentifier(Seq<char>),
    NoCurrentScope,
    NoScopeToLeave,
}

impl View for CompilerError {
    type V = CompilerErrorView;

    open spec fn view(&self) -> CompilerErrorView {
        match *self {
            CompilerError::Unsupported(construct) => CompilerErrorView::Unsupported(construct),
            CompilerError::RegistersExhausted => CompilerErrorView::RegistersExhausted,
            CompilerError::UndeclaredIdentifier(name) => CompilerErrorView::UndeclaredIdentifier(
                name@,
            ),
            CompilerError::NoCurrentScope => CompilerErrorView::NoCurrentScope,
            CompilerError::NoScopeToLeave => CompilerErrorView::NoScopeToLeave,
        }
    }
}

/// The error for an unsupported construct, as a value.
pub open spec fn unsupported(construct: Construct) -> CompilerErrorView {
    CompilerErrorView::Unsupported(construct)
}

impl CompilerError {
    /// Whether the error names an unsupported construct, as opposed to a
    /// program that exceeds capacity or is malformed.
    pub fn is_unsupported(&self) -> (result: bool)
        ensures
            result == (self@ is Unsupported),
    {
        match self {
            CompilerError::Unsupported(_) => true,
            _ => false,
        }
    }
}

/// A remark that does not stop the compilation.
#[derive(Debug, Clone, Copy, PartialEq, Eq)]
pub enum Advisory {
    /// A `let` declaration was compiled as if it were `var`.
    LetTreatedAsVar,
    /// A `const` declaration was compiled as if it were `var`.
    ConstTreatedAsVar,
}

} // verus!
