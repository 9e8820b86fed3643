//! A compiler backend that lowers a subset of ECMAScript, given as a syntax
//! tree, into linear bytecode for a register-based virtual machine.
//!
//! A [`BytecodeCompiler`] walks a [`Program`], gives every variable and every
//! intermediate value a register, selects the instructions, and emits one
//! [`Bytecode`]: the top-level code and, behind an exit, the bodies of the
//! declared functions. Constructs outside the subset are refused with an
//! error that names them; the first error ends the compilation.
//!
//! The modules, leaves first:
//!
//! - [`ast`]: the syntax tree; [`ast_view`]: its mathematical value.
//! - [`error`]: errors and advisories.
//! - [`number`]: reading the text of numeric literals.
//! - [`bytecode`]: instructions, operands, commands and their sequences.
//! - [`scope`]: the register pool and the stack of scopes;
//!   [`scope_laws`]: what holds of them.
//! - [`instruction_set`]: instruction selection and the registers of the
//!   common constants.
//! - [`lowering`]: what compiling means, as functions on mathematical values;
//!   [`lowering_laws`] and [`invariants`]: what follows from that.
//! - [`compiler`]: the compiler itself, proved to compute what [`lowering`]
//!   says.

pub mod ast;
pub mod ast_view;
pub mod bytecode;
pub mod compiler;
pub mod error;
pub mod instruction_set;
pub mod invariants;
pub mod lowering;
pub mod lowering_laws;
pub mod number;
pub mod scope;
pub mod scope_laws;

pub use ast::Program;
pub use bytecode::Bytecode;
pub use compiler::BytecodeCompiler;
pub use error::CompilerError;
