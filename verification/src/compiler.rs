//! The lowering engine: the walk over the syntax tree that emits bytecode.
//!
//! Every function here does what its counterpart in [`crate::lowering`]
//! says, on the state of the compiler and on the node that it is given.

use vstd::prelude::*;
use crate::ast::{
    AssignmentExpr, AssignmentLeft, AssignmentOperator, CallExpr, Decl, Expr, Function,
    FunctionArg, MemberExpr, Pat, Program, ProgramPart, Stmt, UnaryExpr, UpdateExpr,
    VariableDecl, VariableKind,
};
use crate::ast_view::{
    declarator_views, expr_view, expr_views, optional_expr_view, parameter_views, part_views,
};
use crate::bytecode::{
    load_instruction, operand_views, Bytecode, Command, CommandView, Instruction, Operand,
    OperandView,
};
use crate::error::{Advisory, CompilerError, CompilerErrorView, Construct};
use crate::instruction_set::{load_command, InstructionSet};
use crate::invariants::{
    constants_are_apart, functions_are_closed, keeps, lemma_compile_program_keeps,
    lemma_declare, lemma_fresh_compiler, lemma_lower_assignment_only_reserves,
    lemma_lower_call_only_reserves, lemma_lower_decl_keeps, lemma_lower_expr_only_reserves,
    lemma_lower_function_keeps, lemma_lower_member_only_reserves, lemma_lower_part_keeps,
    lemma_lower_parts_keeps, lemma_lower_return_only_reserves, lemma_lower_stmt_keeps,
    lemma_lower_unary_only_reserves, lemma_lower_update_only_reserves,
    lemma_lower_var_decl_keeps, lemma_materialize_only_reserves, only_reserves,
};
use crate::lowering::{
    bind_parameters, call_command, compile_program, declare, function_code, kind_advisory,
    lower_arguments, lower_assignment, lower_call, lower_decl, lower_declarator,
    lower_declarators, lower_expr, lower_function, lower_member, lower_part, lower_parts,
    lower_return, lower_stmt, lower_unary, lower_update, lower_var_decl, materialize,
    materialize_key, property_command, CompilerModel, FunctionModel, Gathered, Lowered,
};
use crate::scope::{outcome, Register, Scopes};

verus! {

/// What a step of the compiler gives: a value, or the error that ends the
/// compilation.
pub type CompilerResult<V> = Result<V, CompilerError>;

/// What a lowering gives: the commands, or the error that ends the
/// compilation.
pub type BytecodeResult = Result<Bytecode, CompilerError>;

/// The value of the result of a lowering.
pub open spec fn lowered(result: BytecodeResult) -> Result<Seq<CommandView>, CompilerErrorView> {
    match result {
        Ok(bytecode) => Ok(bytecode@),
        Err(error) => Err(error@),
    }
}

/// The value of the result of a materialization.
pub open spec fn materialized(result: CompilerResult<(Bytecode, Register)>) -> Result<
    (Seq<CommandView>, Register),
    CompilerErrorView,
> {
    match result {
        Ok((bytecode, register)) => Ok((bytecode@, register)),
        Err(error) => Err(error@),
    }
}

/// `rest`, with `code` before its commands.
spec fn after(code: Seq<CommandView>, rest: Lowered) -> Lowered {
    (
        rest.0,
        match rest.1 {
            Ok(more) => Ok(code + more),
            Err(error) => Err(error),
        },
    )
}

/// `rest`, with `code` before its commands and `registers` before its
/// registers.
spec fn gathered_after(
    code: Seq<CommandView>,
    registers: Seq<Register>,
    rest: Gathered,
) -> Gathered {
    (
        rest.0,
        match rest.1 {
            Ok((more, others)) => Ok((code + more, registers + others)),
            Err(error) => Err(error),
        },
    )
}

/// `rest`, with `registers` before its registers.
spec fn bound_after(
    registers: Seq<Register>,
    rest: (CompilerModel, Result<Seq<Register>, CompilerErrorView>),
) -> (CompilerModel, Result<Seq<Register>, CompilerErrorView>) {
    (
        rest.0,
        match rest.1 {
            Ok(others) => Ok(registers + others),
            Err(error) => Err(error),
        },
    )
}

/// A compiled function body that waits to be placed behind the top-level
/// code.
#[derive(Debug)]
pub struct BytecodeFunction {
    bytecode: Bytecode,
    arguments: Vec<Register>,
    ast: Option<Function>,
}

impl View for BytecodeFunction {
    type V = FunctionModel;

    closed spec fn view(&self) -> FunctionModel {
        FunctionModel {
            bytecode: self.bytecode@,
            arguments: self.arguments@,
            ast: match self.ast {
                Some(function) => Some(function@),
                None => None,
            },
        }
    }
}

impl Clone for BytecodeFunction {
    fn clone(&self) -> (copy: Self)
        ensures
            copy@ == self@,
    {
        let arguments = self.arguments.clone();
        assert(arguments@ =~= self.arguments@);
        BytecodeFunction {
            bytecode: self.bytecode.clone(),
            arguments,
            ast: match &self.ast {
                Some(function) => Some(function.clone()),
                None => None,
            },
        }
    }
}

impl BytecodeFunction {
    /// The commands of the body.
    pub fn bytecode(&self) -> (bytecode: &Bytecode)
        ensures
            bytecode@ == self@.bytecode,
    {
        &self.bytecode
    }

    /// The registers of the parameters, in the order of the parameters.
    pub fn arguments(&self) -> (arguments: &Vec<Register>)
        ensures
            arguments@ == self@.arguments,
    {
        &self.arguments
    }

    /// The declaration that the body was compiled from.
    pub fn ast(&self) -> (ast: &Option<Function>)
        ensures
            match *ast {
                Some(function) => self@.ast == Some(function@),
                None => self@.ast is None,
            },
    {
        &self.ast
    }
}

/// The values of a list of stored functions.
spec fn function_models(functions: Seq<BytecodeFunction>) -> Seq<FunctionModel> {
    Seq::new(functions.len(), |i: int| functions[i]@)
}

/// The compiler: the scoping state, the instruction selector, the function
/// bodies compiled so far and the advisories given so far.
#[derive(Debug)]
pub struct BytecodeCompiler {
    scopes: Scopes,
    functions: Vec<BytecodeFunction>,
    isa: InstructionSet,
    advisories: Vec<Advisory>,
}

impl View for BytecodeCompiler {
    type V = CompilerModel;

    closed spec fn view(&self) -> CompilerModel {
        CompilerModel {
            scopes: self.scopes@,
            functions: function_models(self.functions@),
            advisories: self.advisories@,
            literals: self.isa@,
        }
    }
}

impl Clone for BytecodeCompiler {
    fn clone(&self) -> (copy: Self)
        ensures
            copy@ == self@,
    {
        let mut functions: Vec<BytecodeFunction> = Vec::new();
        let mut i: usize = 0;
        while i < self.functions.len()
            invariant
                i <= self.functions.len(),
                functions.len() == i,
                forall|k: int| 0 <= k < i ==> functions[k]@ == self.functions[k]@,
            decreases self.functions.len() - i,
        {
            functions.push(self.functions[i].clone());
            i += 1;
        }
        let advisories = self.advisories.clone();
        assert(advisories@ =~= self.advisories@);
        assert(function_models(functions@) =~= function_models(self.functions@));
        BytecodeCompiler {
            scopes: self.scopes.clone(),
            functions,
            isa: self.isa.clone(),
            advisories,
        }
    }
}

impl BytecodeCompiler {
    /// A compiler in the state in which a compilation starts.
    pub fn new() -> (compiler: Self)
        ensures
            compiler@ == CompilerModel::fresh(),
            compiler@.scopes.wf(),
            compiler@.scopes.pool_is_disjoint(),
            constants_are_apart(compiler@),
            functions_are_closed(compiler@),
    {
        proof {
            lemma_fresh_compiler();
        }
        let mut scopes = Scopes::new();
        assert(scopes@.free.len() == 255);
        let isa = InstructionSet::default(&mut scopes);
        let compiler = BytecodeCompiler {
            scopes,
            functions: Vec::new(),
            isa,
            advisories: Vec::new(),
        };
        assert(compiler@.functions =~= Seq::empty());
        compiler
    }

    /// The scoping state.
    pub fn scopes(&self) -> (scopes: &Scopes)
        ensures
            scopes@ == self@.scopes,
    {
        &self.scopes
    }

    /// The instruction selector.
    pub fn isa(&self) -> (isa: &InstructionSet)
        ensures
            isa@ == self@.literals,
    {
        &self.isa
    }

    /// The function bodies compiled so far, in the order of their
    /// declarations.
    pub fn functions(&self) -> (functions: &Vec<BytecodeFunction>)
        ensures
            functions@.len() == self@.functions.len(),
            forall|i: int| 0 <= i < functions@.len() ==> functions@[i]@ == self@.functions[i],
    {
        &self.functions
    }

    /// The advisories given so far, in the order in which they were given.
    pub fn advisories(&self) -> (advisories: &Vec<Advisory>)
        ensures
            advisories@ == self@.advisories,
    {
        &self.advisories
    }

    /// Binds `decl` to the next free register in the current scope.
    pub fn add_decl(&mut self, decl: String) -> (result: Result<Register, CompilerError>)
        ensures
            (final(self)@, outcome(result)) == declare(old(self)@, decl@),
            keeps(old(self)@, final(self)@, true),
    {
        proof {
            lemma_declare(self@, decl@);
        }
        self.scopes.add_decl(decl)
    }

    /// Compiles a program into one instruction stream: the top-level code,
    /// and behind an exit the bodies of the functions, where there are any.
    pub fn compile(&mut self, program: &Program) -> (result: BytecodeResult)
        ensures
            (final(self)@, lowered(result)) == compile_program(old(self)@, program@),
            keeps(old(self)@, final(self)@, result is Ok),
    {
        proof {
            lemma_compile_program_keeps(self@, program@);
        }
        let bytecode = match program {
            Program::Mod(_) => {
                return Err(CompilerError::Unsupported(Construct::Modules));
            },
            Program::Script(parts) => self.compile_program_parts(parts)?,
        };
        let functions_bytecode = self.functions_bytecode();
        if functions_bytecode.is_empty() {
            Ok(bytecode)
        } else {
            let exit = Command::new(Instruction::Exit, Vec::new());
            assert(exit@.operands =~= Seq::empty());
            Ok(bytecode.add(exit).combine(functions_bytecode))
        }
    }

    /// The bodies of the stored functions, one after the other.
    fn functions_bytecode(&self) -> (bytecode: Bytecode)
        ensures
            bytecode@ == function_code(self@.functions),
    {
        let mut bytecode = Bytecode::new();
        let mut i: usize = 0;
        while i < self.functions.len()
            invariant
                i <= self.functions.len(),
                bytecode@ == function_code(self@.functions.take(i as int)),
            decreases self.functions.len() - i,
        {
            bytecode = bytecode.combine(self.functions[i].bytecode.clone());
            assert(self@.functions.take(i + 1).drop_last() =~= self@.functions.take(i as int));
            i += 1;
        }
        assert(self@.functions.take(i as int) =~= self@.functions);
        bytecode
    }

    /// Lowers a list of items in order; the first failure stops the walk.
    pub fn compile_program_parts(&mut self, parts: &Vec<ProgramPart>) -> (result: BytecodeResult)
        ensures
            (final(self)@, lowered(result)) == lower_parts(old(self)@, part_views(parts@), 0),
            keeps(old(self)@, final(self)@, result is Ok),
        decreases parts, 1nat,
    {
        proof {
            lemma_lower_parts_keeps(self@, part_views(parts@), 0);
        }
        let mut bytecode = Bytecode::new();
        let mut i: usize = 0;
        assert(after(bytecode@, lower_parts(self@, part_views(parts@), 0)) == lower_parts(
            self@,
            part_views(parts@),
            0,
        )) by {
            let rest = lower_parts(self@, part_views(parts@), 0);
            if let Ok(more) = rest.1 {
                assert(bytecode@ + more =~= more);
            }
        }
        while i < parts.len()
            invariant
                i <= parts.len(),
                keeps(
                    old(self)@,
                    lower_parts(old(self)@, part_views(parts@), 0).0,
                    lower_parts(old(self)@, part_views(parts@), 0).1 is Ok,
                ),
                lower_parts(old(self)@, part_views(parts@), 0) == after(
                    bytecode@,
                    lower_parts(self@, part_views(parts@), i as int),
                ),
            decreases parts.len() - i,
        {
            let ghost code = bytecode@;
            let first = self.compile_program_part(&parts[i])?;
            proof {
                let rest = lower_parts(self@, part_views(parts@), i + 1);
                if let Ok(more) = rest.1 {
                    assert(code + (first@ + more) =~= (code + first@) + more);
                }
            }
            bytecode = bytecode.combine(first);
            i += 1;
        }
        assert(bytecode@ + Seq::<CommandView>::empty() =~= bytecode@);
        Ok(bytecode)
    }

    /// Lowers one item of a program or of a function body.
    pub fn compile_program_part(&mut self, progrm_part: &ProgramPart) -> (result: BytecodeResult)
        ensures
            (final(self)@, lowered(result)) == lower_part(old(self)@, progrm_part@),
            keeps(old(self)@, final(self)@, result is Ok),
        decreases progrm_part, 0nat,
    {
        proof {
            lemma_lower_part_keeps(self@, progrm_part@);
        }
        match progrm_part {
            ProgramPart::Dir => Err(CompilerError::Unsupported(Construct::Directives)),
            ProgramPart::Decl(decl) => self.compile_decl(decl),
            ProgramPart::Stmt(stmt) => self.compile_stmt(stmt),
        }
    }

    /// Lowers a declaration.
    pub fn compile_decl(&mut self, decl: &Decl) -> (result: BytecodeResult)
        ensures
            (final(self)@, lowered(result)) == lower_decl(old(self)@, decl@),
            keeps(old(self)@, final(self)@, result is Ok),
        decreases decl, 0nat,
    {
        proof {
            lemma_lower_decl_keeps(self@, decl@);
        }
        match decl {
            Decl::Variable(var_kind, var_decls) => self.compile_var_decl(var_kind, var_decls),
            Decl::Function(func) => self.compile_func(func),
            Decl::Class => Err(CompilerError::Unsupported(Construct::ClassDeclarations)),
            Decl::Import => Err(CompilerError::Unsupported(Construct::ImportDeclarations)),
            Decl::Export => Err(CompilerError::Unsupported(Construct::ExportDeclarations)),
        }
    }

    /// Lowers a variable declaration. Each declarator gets a new register,
    /// and its initializer is lowered into that register. A declarator that
    /// fails stops the walk; the registers of the declarators before it stay
    /// bound.
    pub fn compile_var_decl(&mut self, kind: &VariableKind, decls: &[VariableDecl]) -> (result:
        BytecodeResult)
        ensures
            (final(self)@, lowered(result)) == lower_var_decl(
                old(self)@,
                *kind,
                declarator_views(decls@),
            ),
            keeps(old(self)@, final(self)@, true),
    {
        proof {
            lemma_lower_var_decl_keeps(self@, *kind, declarator_views(decls@));
        }
        match kind {
            VariableKind::Let => {
                self.advisories.push(Advisory::LetTreatedAsVar);
            },
            VariableKind::Const => {
                self.advisories.push(Advisory::ConstTreatedAsVar);
            },
            VariableKind::Var => {},
        }
        let ghost start = self@;
        assert(start.advisories =~= old(self)@.advisories + kind_advisory(*kind));
        let mut bytecode = Bytecode::new();
        let mut i: usize = 0;
        assert(after(bytecode@, lower_declarators(self@, declarator_views(decls@), 0))
            == lower_declarators(self@, declarator_views(decls@), 0)) by {
            let rest = lower_declarators(self@, declarator_views(decls@), 0);
            if let Ok(more) = rest.1 {
                assert(bytecode@ + more =~= more);
            }
        }
        while i < decls.len()
            invariant
                i <= decls.len(),
                keeps(
                    old(self)@,
                    lower_var_decl(old(self)@, *kind, declarator_views(decls@)).0,
                    true,
                ),
                lower_var_decl(old(self)@, *kind, declarator_views(decls@)) == lower_declarators(
                    start,
                    declarator_views(decls@),
                    0,
                ),
                lower_declarators(start, declarator_views(decls@), 0) == after(
                    bytecode@,
                    lower_declarators(self@, declarator_views(decls@), i as int),
                ),
            decreases decls.len() - i,
        {
            let ghost code = bytecode@;
            let first = self.compile_declarator(&decls[i])?;
            proof {
                let rest = lower_declarators(self@, declarator_views(decls@), i + 1);
                if let Ok(more) = rest.1 {
                    assert(code + (first@ + more) =~= (code + first@) + more);
                }
            }
            bytecode = bytecode.combine(first);
            i += 1;
        }
        assert(bytecode@ + Seq::<CommandView>::empty() =~= bytecode@);
        Ok(bytecode)
    }

    /// Lowers one declarator.
    fn compile_declarator(&mut self, decl: &VariableDecl) -> (result: BytecodeResult)
        ensures
            (final(self)@, lowered(result)) == lower_declarator(old(self)@, decl@),
    {
        match &decl.id {
            Pat::Identifier(ident) => {
                let reg = self.scopes.add_decl(ident.clone())?;
                match &decl.init {
                    Some(expr) => self.compile_expr(expr, reg),
                    None => Ok(Bytecode::new()),
                }
            },
            Pat::Array => Err(CompilerError::Unsupported(Construct::ArrayPatterns)),
            Pat::Object => Err(CompilerError::Unsupported(Construct::ObjectPatterns)),
            Pat::RestElement => Err(CompilerError::Unsupported(Construct::RestElements)),
            Pat::Assignment => Err(CompilerError::Unsupported(Construct::AssignmentPatterns)),
        }
    }

    /// Lowers a statement.
    pub fn compile_stmt(&mut self, stmt: &Stmt) -> (result: BytecodeResult)
        ensures
            (final(self)@, lowered(result)) == lower_stmt(old(self)@, stmt@),
            keeps(old(self)@, final(self)@, result is Ok),
        decreases stmt, 0nat,
    {
        proof {
            lemma_lower_stmt_keeps(self@, stmt@);
        }
        match stmt {
            Stmt::Expr(expr) => {
                let throwaway = *self.scopes.get_throwaway_register()?;
                self.compile_expr(expr, throwaway)
            },
            Stmt::Block(stmts) => self.compile_program_parts(stmts),
            Stmt::Empty => Ok(Bytecode::new()),
            Stmt::Debugger => Err(CompilerError::Unsupported(Construct::DebuggerStatements)),
            Stmt::With => Err(CompilerError::Unsupported(Construct::WithStatements)),
            Stmt::Return(ret) => self.compile_return_stmt(ret),
            Stmt::Throw => Err(CompilerError::Unsupported(Construct::ThrowStatements)),
            Stmt::Try => Err(CompilerError::Unsupported(Construct::TryStatements)),
            Stmt::ForIn => Err(CompilerError::Unsupported(Construct::ForInStatements)),
            Stmt::ForOf => Err(CompilerError::Unsupported(Construct::ForOfStatements)),
            Stmt::Var(decls) => self.compile_var_decl(&VariableKind::Var, decls),
            Stmt::Labeled
            | Stmt::Break
            | Stmt::Continue
            | Stmt::If
            | Stmt::Switch
            | Stmt::While
            | Stmt::DoWhile
            | Stmt::For => Err(CompilerError::Unsupported(Construct::StatementType)),
        }
    }

    /// Lowers a return.
    pub fn compile_return_stmt(&mut self, ret: &Option<Expr>) -> (result: BytecodeResult)
        ensures
            (final(self)@, lowered(result)) == lower_return(old(self)@, optional_expr_view(*ret)),
            only_reserves(old(self)@, final(self)@),
    {
        proof {
            lemma_lower_return_only_reserves(self@, optional_expr_view(*ret));
        }
        let (bytecode, ret_regs) = match ret {
            Some(ret_expr) => {
                let (bytecode, ret_reg) = self.maybe_compile_expr(ret_expr, None)?;
                (bytecode, vec![ret_reg])
            },
            None => (Bytecode::new(), Vec::new()),
        };
        let ghost registers = ret_regs@;
        let operands = vec![Operand::RegistersArray(ret_regs)];
        assert(operand_views(operands@) =~= seq![OperandView::RegistersArray(registers)]);
        let command = Command::new(Instruction::ReturnBytecodeFunc, operands);
        proof {
            if ret is Some {
                assert(registers =~= seq![registers[0]]);
            } else {
                assert(registers =~= Seq::empty());
                assert(bytecode@.push(command@) =~= seq![command@]);
            }
        }
        Ok(bytecode.add(command))
    }

    /// Brings the value of `expr` into a register and says which. A name
    /// that the current scope binds is its own register: nothing is emitted
    /// and `target_reg` is not used. Otherwise the value is lowered into
    /// `target_reg`, or into a newly reserved register where none is given.
    pub fn maybe_compile_expr(&mut self, expr: &Expr, target_reg: Option<Register>) -> (result:
        CompilerResult<(Bytecode, Register)>)
        ensures
            (final(self)@, materialized(result)) == materialize(old(self)@, expr@, target_reg),
            only_reserves(old(self)@, final(self)@),
        decreases expr, 1nat,
    {
        proof {
            lemma_materialize_only_reserves(self@, expr@, target_reg);
        }
        let bound: Option<Register> = match expr {
            Expr::Ident(ident) => match self.scopes.get_var(ident.as_str()) {
                Ok(var) => Some(var.register),
                Err(_) => None,
            },
            _ => None,
        };
        match bound {
            Some(register) => Ok((Bytecode::new(), register)),
            None => {
                let target_reg = match target_reg {
                    Some(reg) => reg,
                    None => self.scopes.reserve_register()?,
                };
                let bytecode = self.compile_expr(expr, target_reg)?;
                Ok((bytecode, target_reg))
            },
        }
    }

    /// Brings the name of a property, as a string, into a newly reserved
    /// register.
    fn compile_property_key(&mut self, name: &String) -> (result: CompilerResult<
        (Bytecode, Register),
    >)
        ensures
            (final(self)@, materialized(result)) == materialize_key(old(self)@, name@),
    {
        let target_reg = self.scopes.reserve_register()?;
        let bytecode = self.compile_operand_assignment(target_reg, Operand::String(name.clone()))?;
        Ok((bytecode, target_reg))
    }

    /// Lowers an expression so that its value arrives in `target_reg`.
    pub fn compile_expr(&mut self, expr: &Expr, target_reg: Register) -> (result: BytecodeResult)
        ensures
            (final(self)@, lowered(result)) == lower_expr(old(self)@, expr@, target_reg),
            only_reserves(old(self)@, final(self)@),
        decreases expr, 0nat,
    {
        proof {
            lemma_lower_expr_only_reserves(self@, expr@, target_reg);
        }
        match expr {
            Expr::ArrowFunction => Err(CompilerError::Unsupported(Construct::ArrowFunctions)),
            Expr::ArrowParamPlaceHolder => Err(
                CompilerError::Unsupported(Construct::ArrowParameterPlaceholders),
            ),
            Expr::Assignment(assignment) => self.compile_assignment_expr(assignment, target_reg),
            Expr::Await => Err(CompilerError::Unsupported(Construct::AwaitExpressions)),
            Expr::Class => Err(CompilerError::Unsupported(Construct::ClassExpressions)),
            Expr::Call(call) => self.compile_call_expr(call, target_reg),
            Expr::Function => Err(CompilerError::Unsupported(Construct::FunctionExpressions)),
            Expr::Ident(ident) => {
                let register = self.scopes.get_var(ident.as_str())?.register;
                self.compile_operand_assignment(target_reg, Operand::Register(register))
            },
            Expr::Literal(lit) => {
                let operand = Operand::from_literal(lit)?;
                self.compile_operand_assignment(target_reg, operand)
            },
            Expr::Member(member) => self.compile_member_expr(member, target_reg),
            Expr::MetaProperty => Err(CompilerError::Unsupported(Construct::MetaProperties)),
            Expr::Spread => Err(CompilerError::Unsupported(Construct::SpreadExpressions)),
            Expr::Super => Err(CompilerError::Unsupported(Construct::SuperExpressions)),
            Expr::TaggedTemplate => Err(
                CompilerError::Unsupported(Construct::TaggedTemplateExpressions),
            ),
            Expr::Update(update) => self.compile_update_expr(update, target_reg),
            Expr::Unary(unary) => self.compile_unary_expr(unary, target_reg),
            Expr::Yield => Err(CompilerError::Unsupported(Construct::YieldExpressions)),
            Expr::Array
            | Expr::Binary
            | Expr::Conditional
            | Expr::Logical
            | Expr::New
            | Expr::Object
            | Expr::Sequence
            | Expr::This => Err(CompilerError::Unsupported(Construct::ExpressionType)),
        }
    }

    /// Lowers a call.
    pub fn compile_call_expr(&mut self, call: &CallExpr, target_reg: Register) -> (result:
        BytecodeResult)
        ensures
            (final(self)@, lowered(result)) == lower_call(old(self)@, call@, target_reg),
            only_reserves(old(self)@, final(self)@),
        decreases call, 0nat,
    {
        proof {
            lemma_lower_call_only_reserves(self@, call@, target_reg);
        }
        let (callee_bc, callee_reg) = self.maybe_compile_expr(&call.callee,Some(target_reg))?;
        let ghost start = self@;
        let mut arg_regs: Vec<Register> = Vec::new();
        let mut bytecode = Bytecode::new();
        let mut i: usize = 0;
        assert(gathered_after(
            bytecode@,
            arg_regs@,
            lower_arguments(self@, expr_views(call.arguments@), 0),
        ) == lower_arguments(self@, expr_views(call.arguments@), 0)) by {
            let rest = lower_arguments(self@, expr_views(call.arguments@), 0);
            if let Ok((more, others)) = rest.1 {
                assert(bytecode@ + more =~= more);
                assert(arg_regs@ + others =~= others);
            }
        }
        while i < call.arguments.len()
            invariant
                i <= call.arguments.len(),
                only_reserves(old(self)@, lower_call(old(self)@, call@, target_reg).0),
                materialize(old(self)@, expr_view(*call.callee), Some(target_reg)) == (
                    start,
                    Ok::<(Seq<CommandView>, Register), CompilerErrorView>((callee_bc@, callee_reg)),
                ),
                lower_arguments(start, expr_views(call.arguments@), 0) == gathered_after(
                    bytecode@,
                    arg_regs@,
                    lower_arguments(self@, expr_views(call.arguments@), i as int),
                ),
            decreases call.arguments.len() - i,
        {
            let ghost code = bytecode@;
            let ghost registers = arg_regs@;
            let (arg_bc, arg_reg) = self.maybe_compile_expr(&call.arguments[i], None)?;
            proof {
                let rest = lower_arguments(self@, expr_views(call.arguments@), i + 1);
                if let Ok((more, others)) = rest.1 {
                    assert(code + (arg_bc@ + more) =~= (code + arg_bc@) + more);
                    assert(registers + (seq![arg_reg] + others) =~= registers.push(arg_reg)
                        + others);
                }
            }
            arg_regs.push(arg_reg);
            bytecode = bytecode.combine(arg_bc);
            i += 1;
        }
        assert(bytecode@ + Seq::<CommandView>::empty() =~= bytecode@);
        assert(arg_regs@ + Seq::<Register>::empty() =~= arg_regs@);
        let ghost registers = arg_regs@;
        let operands = vec![
            Operand::Register(target_reg),
            Operand::Register(callee_reg),
            Operand::RegistersArray(arg_regs),
        ];
        assert(operand_views(operands@) =~= call_command(
            target_reg,
            callee_reg,
            registers,
        ).operands);
        Ok(bytecode.combine(callee_bc).add(Command::new(Instruction::CallFunc, operands)))
    }

    /// Lowers a property access.
    pub fn compile_member_expr(&mut self, member: &MemberExpr, target_reg: Register) -> (result:
        BytecodeResult)
        ensures
            (final(self)@, lowered(result)) == lower_member(old(self)@, member@, target_reg),
            only_reserves(old(self)@, final(self)@),
        decreases member, 0nat,
    {
        proof {
            lemma_lower_member_only_reserves(self@, member@, target_reg);
        }
        let (obj_bc, obj_reg) = self.maybe_compile_expr(&member.object, None)?;
        let (prop_bc, prop_reg) = match &*member.property {
            Expr::Ident(ident) => self.compile_property_key(ident)?,
            _ => self.maybe_compile_expr(&member.property, None)?,
        };
        let operands = vec![
            Operand::Register(target_reg),
            Operand::Register(obj_reg),
            Operand::Register(prop_reg),
        ];
        assert(operand_views(operands@) =~= property_command(
            target_reg,
            obj_reg,
            prop_reg,
        ).operands);
        Ok(obj_bc.combine(prop_bc).add(Command::new(Instruction::PropAccess, operands)))
    }

    /// Lowers an assignment. The value of the assignment itself is not put
    /// anywhere: `_target_reg` is not used. An assignment to a property changes
    /// the register that the property was read into, not the object. A compound
    /// operator that has no instruction is an error, found once both sides are
    /// materialized.
    pub fn compile_assignment_expr(
        &mut self,
        assign: &AssignmentExpr,
        _target_reg: Register,
    ) -> (result: BytecodeResult)
        ensures
            (final(self)@, lowered(result)) == lower_assignment(old(self)@, assign@, _target_reg),
            only_reserves(old(self)@, final(self)@),
        decreases assign, 0nat,
    {
        proof {
            lemma_lower_assignment_only_reserves(self@, assign@, _target_reg);
        }
        let (left_bc, left_reg) = match &assign.left {
            AssignmentLeft::Pat(_) => {
                return Err(CompilerError::Unsupported(Construct::PatternsInAssignments));
            },
            AssignmentLeft::Expr(expr) => self.maybe_compile_expr(expr, None)?,
        };
        match assign.operator {
            AssignmentOperator::Equal => {
                let right_bc = self.compile_expr(&assign.right, left_reg)?;
                Ok(left_bc.combine(right_bc))
            },
            _ => {
                let (right_bc, right_reg) = self.maybe_compile_expr(&assign.right, None)?;
                if self.isa.has_assignment_op(&assign.operator) {
                    Ok(
                        left_bc.combine(right_bc).add(
                            self.isa.assignment_op(&assign.operator, left_reg, right_reg),
                        ),
                    )
                } else {
                    Err(
                        CompilerError::Unsupported(
                            Construct::AssignmentOperation(assign.operator),
                        ),
                    )
                }
            },
        }
    }

    /// Lowers an increment or decrement. The operand is changed in place:
    /// `_target_reg` is not used.
    pub fn compile_update_expr(&mut self, update: &UpdateExpr, _target_reg: Register) -> (result:
        BytecodeResult)
        ensures
            (final(self)@, lowered(result)) == lower_update(old(self)@, update@),
            only_reserves(old(self)@, final(self)@),
        decreases update, 0nat,
    {
        proof {
            lemma_lower_update_only_reserves(self@, update@);
        }
        if update.prefix {
            let (arg_bc, arg_reg) = self.maybe_compile_expr(&update.argument, None)?;
            Ok(arg_bc.add(self.isa.update_op(&update.operator, arg_reg)))
        } else {
            Err(CompilerError::Unsupported(Construct::SuffixUpdateExpressions))
        }
    }

    /// Lowers an operation with one operand.
    pub fn compile_unary_expr(&mut self, unary: &UnaryExpr, target_reg: Register) -> (result:
        BytecodeResult)
        ensures
            (final(self)@, lowered(result)) == lower_unary(old(self)@, unary@, target_reg),
            only_reserves(old(self)@, final(self)@),
        decreases unary, 0nat,
    {
        proof {
            lemma_lower_unary_only_reserves(self@, unary@, target_reg);
        }
        if unary.prefix {
            let (arg_bc, arg_reg) = self.maybe_compile_expr(&unary.argument, None)?;
            let command = self.isa.unary_op(&unary.operator, target_reg, arg_reg)?;
            Ok(arg_bc.add(command))
        } else {
            Err(CompilerError::Unsupported(Construct::SuffixUnaryExpressions))
        }
    }

    /// Binds the parameters of a function, in order, each to a new register.
    fn compile_func_params(&mut self, params: &Vec<FunctionArg>) -> (result: CompilerResult<
        Vec<Register>,
    >)
        ensures
            (
                final(self)@,
                match result {
                    Ok(registers) => Ok::<Seq<Register>, CompilerErrorView>(registers@),
                    Err(error) => Err(error@),
                },
            ) == bind_parameters(old(self)@, parameter_views(params@), 0),
    {
        let mut arg_regs: Vec<Register> = Vec::new();
        let mut i: usize = 0;
        assert(bound_after(arg_regs@, bind_parameters(self@, parameter_views(params@), 0))
            == bind_parameters(self@, parameter_views(params@), 0)) by {
            let rest = bind_parameters(self@, parameter_views(params@), 0);
            if let Ok(others) = rest.1 {
                assert(arg_regs@ + others =~= others);
            }
        }
        while i < params.len()
            invariant
                i <= params.len(),
                bind_parameters(old(self)@, parameter_views(params@), 0) == bound_after(
                    arg_regs@,
                    bind_parameters(self@, parameter_views(params@), i as int),
                ),
            decreases params.len() - i,
        {
            let ghost registers = arg_regs@;
            let name = match &params[i] {
                FunctionArg::Expr(Expr::Ident(ident)) => ident,
                FunctionArg::Pat(Pat::Identifier(ident)) => ident,
                _ => {
                    return Err(CompilerError::Unsupported(Construct::NonIdentifierParameters));
                },
            };
            let register = self.scopes.add_decl(name.clone())?;
            proof {
                let rest = bind_parameters(self@, parameter_views(params@), i + 1);
                if let Ok(others) = rest.1 {
                    assert(registers + (seq![register] + others) =~= registers.push(
                        register,
                    ) + others);
                }
            }
            arg_regs.push(register);
            i += 1;
        }
        assert(arg_regs@ + Seq::<Register>::empty() =~= arg_regs@);
        Ok(arg_regs)
    }

    /// Lowers a function declaration: the body is compiled and stored, and
    /// nothing is emitted where the declaration stands.
    pub fn compile_func(&mut self, func: &Function) -> (result: BytecodeResult)
        ensures
            (final(self)@, lowered(result)) == lower_function(old(self)@, func@),
            keeps(old(self)@, final(self)@, result is Ok),
        decreases func, 0nat,
    {
        proof {
            lemma_lower_function_keeps(self@, func@);
        }
        if func.generator || func.is_async {
            return Err(CompilerError::Unsupported(Construct::GeneratorAndAsyncFunctions));
        }
        if let Some(ident) = &func.id {
            self.scopes.add_decl(ident.clone())?;
        }
        self.scopes.enter_new_scope()?;
        let arg_regs = self.compile_func_params(&func.params)?;
        let mut func_bc = self.compile_program_parts(&func.body)?;
        self.scopes.leave_current_scope()?;
        if !func_bc.last_op_is_return() {
            let operands = vec![Operand::RegistersArray(Vec::new())];
            assert(operand_views(operands@) =~= seq![
                OperandView::RegistersArray(Seq::<Register>::empty()),
            ]);
            func_bc = func_bc.add(Command::new(Instruction::ReturnBytecodeFunc, operands));
        }
        let ghost stored = function_models(self.functions@);
        self.functions.push(
            BytecodeFunction { bytecode: func_bc, arguments: arg_regs, ast: Some(func.clone()) },
        );
        assert(function_models(self.functions@) =~= stored.push(self.functions@.last()@));
        Ok(Bytecode::new())
    }

    /// The single command that brings `right` into the register `left`.
    fn compile_operand_assignment(&self, left: Register, right: Operand) -> (result:
        BytecodeResult)
        requires
            load_instruction(right@) is Some,
        ensures
            lowered(result) == Ok::<Seq<CommandView>, CompilerErrorView>(
                seq![load_command(left, right@)],
            ),
    {
        let command = self.isa.load_op(left, right);
        let bytecode = Bytecode::new().add(command);
        assert(bytecode@ =~= seq![command@]);
        Ok(bytecode)
    }
}

} // verus!
