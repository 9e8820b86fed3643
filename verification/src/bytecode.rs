//! The instruction stream that the compiler emits.
//!
//! A [`Bytecode`] is an ordered list of [`Command`]s; a command is an
//! [`Instruction`] with an ordered list of [`Operand`]s. Appending and
//! concatenating keep the order.

use vstd::prelude::*;
use crate::ast::Literal;
use crate::ast_view::LiteralView;
use crate::error::{unsupported, CompilerError, CompilerErrorView, Construct};
use crate::number::{parse_plain_decimal, plain_decimal};
use crate::scope::Register;

verus! {

/// The operation codes of the virtual machine.
#[derive(Debug, Clone, Copy, PartialEq, Eq)]
pub enum Instruction {
    Copy,
    LoadString,
    LoadFloatNum,
    LoadLongNum,
    LoadNum,
    Add,
    Minus,
    Mul,
    Div,
    CompEqual,
    CompNotEqual,
    CompStrictEqual,
    CompStrictNotEqual,
    CompLessThan,
    CompGreaterThan,
    CompLessThanEqual,
    CompGreaterThanEqual,
    PropAccess,
    CallFunc,
    ReturnBytecodeFunc,
    Exit,
}

/// One argument of a command.
#[derive(Debug, PartialEq, Eq)]
pub enum Operand {
    /// A register.
    Register(Register),
    /// A list of registers, in order.
    RegistersArray(Vec<Register>),
    /// A string.
    String(String),
    /// A number that is not a plain decimal integer in the range of
    /// [`Operand::LongNum`], given by the text of its literal.
    FloatNum(String),
    /// An integer that does not fit a [`Operand::ShortNum`].
    LongNum(i64),
    /// A small integer.
    ShortNum(u8),
    /// The position of a function in the instruction stream.
    FunctionAddr(u64),
    /// The position of a branch target in the instruction stream.
    BranchAddr(u64),
}

/// The mathematical value of an [`Operand`].
pub enum OperandView {
    Register(Register),
    RegistersArray(Seq<Register>),
    String(Seq<char>),
    FloatNum(Seq<char>),
    LongNum(i64),
    ShortNum(u8),
    FunctionAddr(u64),
    BranchAddr(u64),
}

impl View for Operand {
    type V = OperandView;

    open spec fn view(&self) -> OperandView {
        match *self {
            Operand::Register(register) => OperandView::Register(register),
            Operand::RegistersArray(registers) => OperandView::RegistersArray(registers@),
            Operand::String(text) => OperandView::String(text@),
            Operand::FloatNum(text) => OperandView::FloatNum(text@),
            Operand::LongNum(value) => OperandView::LongNum(value),
            Operand::ShortNum(value) => OperandView::ShortNum(value),
            Operand::FunctionAddr(address) => OperandView::FunctionAddr(address),
            Operand::BranchAddr(address) => OperandView::BranchAddr(address),
        }
    }
}

/// The operand that the text of a numeric literal stands for: a short number
/// where the text is a plain decimal integer of at most 255, a long number
/// where it is a larger plain decimal integer that 64 signed bits hold, and
/// the text itself otherwise.
pub open spec fn number_operand(text: Seq<char>) -> OperandView {
    match plain_decimal(text) {
        Some(value) => if value <= u8::MAX {
            OperandView::ShortNum(value as u8)
        } else {
            OperandView::LongNum(value)
        },
        None => OperandView::FloatNum(text),
    }
}

/// The operand that a literal stands for. Strings and numbers have one;
/// the other kinds of literal are refused.
pub open spec fn literal_operand(literal: LiteralView) -> Result<
    OperandView,
    CompilerErrorView,
> {
    match literal {
        LiteralView::Null => Err(unsupported(Construct::NullLiterals)),
        LiteralView::String(text) => Ok(OperandView::String(text)),
        LiteralView::Number(text) => Ok(number_operand(text)),
        LiteralView::Boolean(_) => Err(unsupported(Construct::BooleanLiterals)),
        LiteralView::RegEx => Err(unsupported(Construct::RegExLiterals)),
        LiteralView::Template => Err(unsupported(Construct::TemplateLiterals)),
    }
}

/// The instruction that brings an operand into a register, for the operands
/// that have one.
pub open spec fn load_instruction(operand: OperandView) -> Option<Instruction> {
    match operand {
        OperandView::String(_) => Some(Instruction::LoadString),
        OperandView::FloatNum(_) => Some(Instruction::LoadFloatNum),
        OperandView::LongNum(_) => Some(Instruction::LoadLongNum),
        OperandView::ShortNum(_) => Some(Instruction::LoadNum),
        OperandView::Register(_) => Some(Instruction::Copy),
        OperandView::RegistersArray(_) => None,
        OperandView::FunctionAddr(_) => None,
        OperandView::BranchAddr(_) => None,
    }
}

/// The value of the result of a conversion to an operand.
pub open spec fn operand_outcome(result: Result<Operand, CompilerError>) -> Result<
    OperandView,
    CompilerErrorView,
> {
    match result {
        Ok(operand) => Ok(operand@),
        Err(error) => Err(error@),
    }
}

/// Every operand that a literal stands for can be loaded into a register.
pub proof fn lemma_literal_operand_loads(literal: LiteralView)
    ensures
        literal_operand(literal) matches Ok(operand) ==> load_instruction(operand) is Some,
{
}

impl Clone for Operand {
    fn clone(&self) -> (copy: Self)
        ensures
            copy@ == self@,
    {
        match self {
            Operand::Register(register) => Operand::Register(*register),
            Operand::RegistersArray(registers) => {
                let copied = registers.clone();
                assert(copied@ =~= registers@);
                Operand::RegistersArray(copied)
            },
            Operand::String(text) => Operand::String(text.clone()),
            Operand::FloatNum(text) => Operand::FloatNum(text.clone()),
            Operand::LongNum(value) => Operand::LongNum(*value),
            Operand::ShortNum(value) => Operand::ShortNum(*value),
            Operand::FunctionAddr(address) => Operand::FunctionAddr(*address),
            Operand::BranchAddr(address) => Operand::BranchAddr(*address),
        }
    }
}

impl Operand {
    /// The operand that `literal` stands for.
    pub fn from_literal(literal: &Literal) -> (result: Result<Operand, CompilerError>)
        ensures
            operand_outcome(result) == literal_operand(literal@),
    {
        match literal {
            Literal::Null => Err(CompilerError::Unsupported(Construct::NullLiterals)),
            Literal::String(text) => Ok(Operand::String(text.clone())),
            Literal::Number(text) => Ok(Operand::from_number(text)),
            Literal::Boolean(_) => Err(CompilerError::Unsupported(Construct::BooleanLiterals)),
            Literal::RegEx => Err(CompilerError::Unsupported(Construct::RegExLiterals)),
            Literal::Template => Err(CompilerError::Unsupported(Construct::TemplateLiterals)),
        }
    }

    /// The operand that the text of a numeric literal stands for.
    pub fn from_number(text: &String) -> (operand: Operand)
        ensures
            operand@ == number_operand(text@),
    {
        match parse_plain_decimal(text.as_str()) {
            Some(value) => if value <= 255 {
                Operand::ShortNum(value as u8)
            } else {
                Operand::LongNum(value)
            },
            None => Operand::FloatNum(text.clone()),
        }
    }

    /// The instruction that loads this operand into a register, if there is
    /// one.
    pub fn get_assign_instr_type(&self) -> (instruction: Option<Instruction>)
        ensures
            instruction == load_instruction(self@),
    {
        match self {
            Operand::String(_) => Some(Instruction::LoadString),
            Operand::FloatNum(_) => Some(Instruction::LoadFloatNum),
            Operand::LongNum(_) => Some(Instruction::LoadLongNum),
            Operand::ShortNum(_) => Some(Instruction::LoadNum),
            Operand::Register(_) => Some(Instruction::Copy),
            Operand::RegistersArray(_) => None,
            Operand::FunctionAddr(_) => None,
            Operand::BranchAddr(_) => None,
        }
    }
}

/// The values of a list of operands.
pub open spec fn operand_views(operands: Seq<Operand>) -> Seq<OperandView> {
    Seq::new(operands.len(), |i: int| operands[i]@)
}

/// One instruction with its operands.
#[derive(Debug, PartialEq, Eq)]
pub struct Command {
    pub instruction: Instruction,
    pub operands: Vec<Operand>,
}

/// The mathematical value of a [`Command`].
pub struct CommandView {
    pub instruction: Instruction,
    pub operands: Seq<OperandView>,
}

impl View for Command {
    type V = CommandView;

    open spec fn view(&self) -> CommandView {
        CommandView { instruction: self.instruction, operands: operand_views(self.operands@) }
    }
}

impl Clone for Command {
    fn clone(&self) -> (copy: Self)
        ensures
            copy@ == self@,
    {
        let mut operands: Vec<Operand> = Vec::new();
        let mut i: usize = 0;
        while i < self.operands.len()
            invariant
                i <= self.operands.len(),
                operands@.len() == i,
                operand_views(operands@) == operand_views(self.operands@).take(i as int),
            decreases self.operands.len() - i,
        {
            let ghost copied = operand_views(operands@);
            operands.push(self.operands[i].clone());
            assert forall|k: int| 0 <= k < i implies operand_views(operands@)[k] == operand_views(
                self.operands@,
            )[k] by {
                assert(operand_views(operands@)[k] == copied[k]);
            }
            assert(operand_views(operands@) =~= operand_views(self.operands@).take(i + 1));
            i += 1;
        }
        assert(operand_views(operands@) =~= operand_views(self.operands@));
        Command { instruction: self.instruction, operands }
    }
}

impl Command {
    /// The command with the given instruction and operands.
    pub fn new(instruction: Instruction, operands: Vec<Operand>) -> (command: Command)
        ensures
            command@ == (CommandView { instruction, operands: operand_views(operands@) }),
    {
        Command { instruction, operands }
    }
}

/// The values of a list of commands.
pub open spec fn command_views(commands: Seq<Command>) -> Seq<CommandView> {
    Seq::new(commands.len(), |i: int| commands[i]@)
}

/// Whether the last command of a sequence is a return.
pub open spec fn ends_with_return(commands: Seq<CommandView>) -> bool {
    commands.len() > 0 && commands.last().instruction == Instruction::ReturnBytecodeFunc
}

/// An ordered sequence of commands.
#[derive(Debug, PartialEq, Eq)]
pub struct Bytecode {
    pub commands: Vec<Command>,
}

impl View for Bytecode {
    type V = Seq<CommandView>;

    open spec fn view(&self) -> Seq<CommandView> {
        command_views(self.commands@)
    }
}

impl Clone for Bytecode {
    fn clone(&self) -> (copy: Self)
        ensures
            copy@ == self@,
    {
        let mut commands: Vec<Command> = Vec::new();
        let mut i: usize = 0;
        while i < self.commands.len()
            invariant
                i <= self.commands.len(),
                commands@.len() == i,
                command_views(commands@) == command_views(self.commands@).take(i as int),
            decreases self.commands.len() - i,
        {
            let ghost copied = command_views(commands@);
            commands.push(self.commands[i].clone());
            assert forall|k: int| 0 <= k < i implies command_views(commands@)[k] == command_views(
                self.commands@,
            )[k] by {
                assert(command_views(commands@)[k] == copied[k]);
            }
            assert(command_views(commands@) =~= command_views(self.commands@).take(i + 1));
            i += 1;
        }
        assert(command_views(commands@) =~= command_views(self.commands@));
        Bytecode { commands }
    }
}

impl Bytecode {
    /// The empty sequence.
    pub fn new() -> (bytecode: Bytecode)
        ensures
            bytecode@ == Seq::<CommandView>::empty(),
    {
        let bytecode = Bytecode { commands: Vec::new() };
        assert(bytecode@ =~= Seq::<CommandView>::empty());
        bytecode
    }

    /// This sequence with `command` at its end.
    pub fn add(self, command: Command) -> (bytecode: Bytecode)
        ensures
            bytecode@ == self@.push(command@),
    {
        let mut commands = self.commands;
        commands.push(command);
        let bytecode = Bytecode { commands };
        assert(bytecode@ =~= self@.push(command@));
        bytecode
    }

    /// This sequence followed by `other`.
    pub fn combine(self, other: Bytecode) -> (bytecode: Bytecode)
        ensures
            bytecode@ == self@ + other@,
    {
        let mut commands = self.commands;
        let mut rest = other.commands;
        commands.append(&mut rest);
        let bytecode = Bytecode { commands };
        assert(bytecode@ =~= self@ + other@);
        bytecode
    }

    /// The number of commands.
    pub fn len(&self) -> (length: usize)
        ensures
            length == self@.len(),
    {
        self.commands.len()
    }

    /// Whether there is no command.
    pub fn is_empty(&self) -> (empty: bool)
        ensures
            empty == (self@.len() == 0),
    {
        self.commands.len() == 0
    }

    /// Whether the sequence ends with a return.
    pub fn last_op_is_return(&self) -> (is_return: bool)
        ensures
            is_return == ends_with_return(self@),
    {
        let length = self.commands.len();
        if length == 0 {
            false
        } else {
            match self.commands[length - 1].instruction {
                Instruction::ReturnBytecodeFunc => true,
                _ => false,
            }
        }
    }
}

} // verus!
