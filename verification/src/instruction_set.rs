//! Instruction selection: which command stands for which operation.
//!
//! The selector owns a few registers that are set aside, once, for constants
//! that the emitted code needs again and again.

use vstd::prelude::*;
use crate::ast::{AssignmentOperator, BinaryOperator, UnaryOperator, UpdateOperator};
use crate::bytecode::{
    load_instruction, operand_views, Command, CommandView, Instruction, Operand, OperandView,
};
use crate::error::{unsupported, CompilerError, CompilerErrorView, Construct};
use crate::scope::{Register, Scopes, ScopesModel};

verus! {

/// A constant that has a register of its own.
#[derive(Debug, Clone, Copy, PartialEq, Eq)]
pub enum CommonLiteral {
    /// The number zero.
    Num0,
    /// The number one.
    Num1,
    /// `undefined`.
    Void0,
}

/// The number of constants that have a register of their own.
pub const COMMON_LITERAL_COUNT: usize = 3;

impl CommonLiteral {
    /// The place of the constant in the table of registers.
    pub open spec fn index(self) -> int {
        match self {
            CommonLiteral::Num0 => 0,
            CommonLiteral::Num1 => 1,
            CommonLiteral::Void0 => 2,
        }
    }

    /// The place of the constant in the table of registers.
    pub fn idx(&self) -> (index: usize)
        ensures
            index == self.index(),
            index < COMMON_LITERAL_COUNT,
    {
        match self {
            CommonLiteral::Num0 => 0,
            CommonLiteral::Num1 => 1,
            CommonLiteral::Void0 => 2,
        }
    }
}

/// The table of registers has one place for each constant: every constant has
/// a place below [`COMMON_LITERAL_COUNT`], and no two constants share one.
pub proof fn lemma_common_literal_places(a: CommonLiteral, b: CommonLiteral)
    ensures
        0 <= a.index() < COMMON_LITERAL_COUNT,
        a.index() == b.index() ==> a == b,
{
}

/// What setting aside the registers for the constants does to the scoping
/// state, and which registers it yields: the last free register for zero, the
/// one before it for one, the one before that for `undefined`. Where fewer
/// registers are free than there are constants, all of them are taken and
/// the attempt fails.
pub open spec fn reserve_common_literals(scopes: ScopesModel) -> (
    ScopesModel,
    Result<Seq<Register>, CompilerErrorView>,
) {
    let free = scopes.free;
    let n = free.len() as int;
    if n >= COMMON_LITERAL_COUNT {
        (
            ScopesModel { free: free.take(n - COMMON_LITERAL_COUNT), ..scopes },
            Ok(seq![free[n - 1], free[n - 2], free[n - 3]]),
        )
    } else {
        (ScopesModel { free: Seq::empty(), ..scopes }, Err(CompilerErrorView::RegistersExhausted))
    }
}

/// The registers that are set aside for the common constants.
#[derive(Debug)]
pub struct CommonLiteralRegs {
    regs: Vec<Register>,
}

impl View for CommonLiteralRegs {
    type V = Seq<Register>;

    closed spec fn view(&self) -> Seq<Register> {
        self.regs@
    }
}

impl Clone for CommonLiteralRegs {
    fn clone(&self) -> (copy: Self)
        ensures
            copy@ == self@,
    {
        proof {
            use_type_invariant(self);
        }
        let regs = self.regs.clone();
        assert(regs@ =~= self.regs@);
        CommonLiteralRegs { regs }
    }
}

impl CommonLiteralRegs {
    #[verifier::type_invariant]
    spec fn has_a_place_for_each(self) -> bool {
        self.regs.len() == COMMON_LITERAL_COUNT
    }

    /// The value of the result of [`CommonLiteralRegs::new`].
    pub open spec fn outcome(result: Result<CommonLiteralRegs, CompilerError>) -> Result<
        Seq<Register>,
        CompilerErrorView,
    > {
        match result {
            Ok(registers) => Ok(registers@),
            Err(error) => Err(error@),
        }
    }

    /// Sets aside one register for each constant, taking them from the back
    /// of the free queue.
    pub fn new(scopes: &mut Scopes) -> (result: Result<Self, CompilerError>)
        ensures
            (final(scopes)@, Self::outcome(result)) == reserve_common_literals(old(scopes)@),
            old(scopes)@.wf() ==> final(scopes)@.wf(),
    {
        let mut regs: Vec<Register> = Vec::new();
        let ghost free = scopes@.free;
        let ghost n = free.len() as int;
        while regs.len() < COMMON_LITERAL_COUNT
            invariant
                regs.len() <= COMMON_LITERAL_COUNT,
                regs.len() <= n,
                n == free.len(),
                free == old(scopes)@.free,
                scopes@.frames == old(scopes)@.frames,
                old(scopes)@.wf() ==> scopes@.wf(),
                scopes@.free == free.take(n - regs.len()),
                forall|k: int| 0 <= k < regs.len() ==> regs[k] == free[n - 1 - k],
            decreases COMMON_LITERAL_COUNT - regs.len(),
        {
            match scopes.reserve_register_back() {
                Ok(register) => {
                    regs.push(register);
                    assert(scopes@.free =~= free.take(n - regs.len()));
                },
                Err(error) => {
                    assert(scopes@.free =~= Seq::<Register>::empty());
                    return Err(error);
                },
            }
        }
        assert(regs@ =~= seq![free[n - 1], free[n - 2], free[n - 3]]);
        Ok(CommonLiteralRegs { regs })
    }

    /// The register of `common_lit`.
    pub fn reg(&self, common_lit: &CommonLiteral) -> (register: Register)
        ensures
            self@.len() == COMMON_LITERAL_COUNT,
            register == self@[common_lit.index()],
    {
        proof {
            use_type_invariant(self);
        }
        self.regs[common_lit.idx()]
    }
}

/// The instruction of a compound assignment, for the operators that have one.
pub open spec fn assignment_instruction(op: AssignmentOperator) -> Option<Instruction> {
    match op {
        AssignmentOperator::Equal => Some(Instruction::Copy),
        AssignmentOperator::PlusEqual => Some(Instruction::Add),
        AssignmentOperator::MinusEqual => Some(Instruction::Minus),
        AssignmentOperator::TimesEqual => Some(Instruction::Mul),
        AssignmentOperator::DivEqual => Some(Instruction::Div),
        AssignmentOperator::ModEqual => None,
        AssignmentOperator::LeftShiftEqual => None,
        AssignmentOperator::RightShiftEqual => None,
        AssignmentOperator::UnsignedRightShiftEqual => None,
        AssignmentOperator::OrEqual => None,
        AssignmentOperator::XOrEqual => None,
        AssignmentOperator::AndEqual => None,
        AssignmentOperator::PowerOfEqual => None,
    }
}

/// The instruction of a binary operation, for the operators that have one.
pub open spec fn binary_instruction(op: BinaryOperator) -> Option<Instruction> {
    match op {
        BinaryOperator::Equal => Some(Instruction::CompEqual),
        BinaryOperator::NotEqual => Some(Instruction::CompNotEqual),
        BinaryOperator::StrictEqual => Some(Instruction::CompStrictEqual),
        BinaryOperator::StrictNotEqual => Some(Instruction::CompStrictNotEqual),
        BinaryOperator::LessThan => Some(Instruction::CompLessThan),
        BinaryOperator::GreaterThan => Some(Instruction::CompGreaterThan),
        BinaryOperator::LessThanEqual => Some(Instruction::CompLessThanEqual),
        BinaryOperator::GreaterThanEqual => Some(Instruction::CompGreaterThanEqual),
        BinaryOperator::LeftShift => None,
        BinaryOperator::RightShift => None,
        BinaryOperator::UnsignedRightShift => None,
        BinaryOperator::Plus => Some(Instruction::Add),
        BinaryOperator::Minus => Some(Instruction::Minus),
        BinaryOperator::Times => Some(Instruction::Mul),
        BinaryOperator::Over => Some(Instruction::Div),
        BinaryOperator::Mod => None,
        BinaryOperator::Or => None,
        BinaryOperator::XOr => None,
        BinaryOperator::And => None,
        BinaryOperator::In => None,
        BinaryOperator::InstanceOf => None,
        BinaryOperator::PowerOf => None,
    }
}

/// A command on three registers.
pub open spec fn register_command(
    instruction: Instruction,
    rd: Register,
    r0: Register,
    r1: Register,
) -> CommandView {
    CommandView {
        instruction,
        operands: seq![
            OperandView::Register(rd),
            OperandView::Register(r0),
            OperandView::Register(r1),
        ],
    }
}

/// The command that brings `right` into the register `left`.
pub open spec fn load_command(left: Register, right: OperandView) -> CommandView
    recommends
        load_instruction(right) is Some,
{
    CommandView {
        instruction: load_instruction(right)->0,
        operands: seq![OperandView::Register(left), right],
    }
}

/// The command of the assignment `rd op rs`: the operation is done in place
/// on `rd`.
pub open spec fn assignment_command(
    op: AssignmentOperator,
    rd: Register,
    rs: Register,
) -> CommandView
    recommends
        assignment_instruction(op) is Some,
{
    register_command(assignment_instruction(op)->0, rd, rd, rs)
}

/// The command of a prefix increment or decrement of `rd`, where `one` is
/// the register of the constant one.
pub open spec fn update_command(op: UpdateOperator, rd: Register, one: Register) -> CommandView {
    register_command(
        match op {
            UpdateOperator::Increment => Instruction::Add,
            UpdateOperator::Decrement => Instruction::Minus,
        },
        rd,
        rd,
        one,
    )
}

/// The command that puts `op rs` into `rd`, where `zero` is the register of
/// the constant zero. Only the two signs have one.
pub open spec fn unary_command(
    op: UnaryOperator,
    rd: Register,
    rs: Register,
    zero: Register,
) -> Result<CommandView, CompilerErrorView> {
    match op {
        UnaryOperator::Minus => Ok(register_command(Instruction::Minus, rd, zero, rs)),
        UnaryOperator::Plus => Ok(register_command(Instruction::Add, rd, zero, rs)),
        UnaryOperator::Void => Err(unsupported(Construct::VoidOperator)),
        UnaryOperator::Not => Err(unsupported(Construct::UnaryOperation(op))),
        UnaryOperator::Tilde => Err(unsupported(Construct::UnaryOperation(op))),
        UnaryOperator::TypeOf => Err(unsupported(Construct::UnaryOperation(op))),
        UnaryOperator::Delete => Err(unsupported(Construct::UnaryOperation(op))),
    }
}

/// The command that puts `r0 op r1` into `rd`.
pub open spec fn binary_command(
    op: BinaryOperator,
    rd: Register,
    r0: Register,
    r1: Register,
) -> Result<CommandView, CompilerErrorView> {
    match binary_instruction(op) {
        Some(instruction) => Ok(register_command(instruction, rd, r0, r1)),
        None => Err(unsupported(Construct::BinaryOperation(op))),
    }
}

/// The value of the result of a selection that can fail.
pub open spec fn selected(result: Result<Command, CompilerError>) -> Result<
    CommandView,
    CompilerErrorView,
> {
    match result {
        Ok(command) => Ok(command@),
        Err(error) => Err(error@),
    }
}

/// Builds a command on three registers.
fn three_registers(instruction: Instruction, rd: Register, r0: Register, r1: Register) -> (command:
    Command)
    ensures
        command@ == register_command(instruction, rd, r0, r1),
{
    let operands = vec![Operand::Register(rd), Operand::Register(r0), Operand::Register(r1)];
    assert(operand_views(operands@) =~= seq![
        OperandView::Register(rd),
        OperandView::Register(r0),
        OperandView::Register(r1),
    ]);
    Command::new(instruction, operands)
}

/// The instruction selector.
#[derive(Debug)]
pub struct InstructionSet {
    common_regs: CommonLiteralRegs,
}

impl View for InstructionSet {
    type V = Seq<Register>;

    closed spec fn view(&self) -> Seq<Register> {
        self.common_regs@
    }
}

impl Clone for InstructionSet {
    fn clone(&self) -> (copy: Self)
        ensures
            copy@ == self@,
    {
        InstructionSet { common_regs: self.common_regs.clone() }
    }
}

impl InstructionSet {
    /// The selector for a compilation that uses `scopes`. It sets aside the
    /// registers of the common constants, so that many must be free.
    pub fn default(scopes: &mut Scopes) -> (isa: Self)
        requires
            old(scopes)@.free.len() >= COMMON_LITERAL_COUNT,
        ensures
            final(scopes)@ == reserve_common_literals(old(scopes)@).0,
            Ok::<Seq<Register>, CompilerErrorView>(isa@) == reserve_common_literals(
                old(scopes)@,
            ).1,
            old(scopes)@.wf() ==> final(scopes)@.wf(),
    {
        match CommonLiteralRegs::new(scopes) {
            Ok(common_regs) => InstructionSet { common_regs },
            Err(_) => unreached(),
        }
    }

    /// The registers of the common constants.
    pub fn common_lits(&self) -> (registers: &CommonLiteralRegs)
        ensures
            registers@ == self@,
    {
        &self.common_regs
    }

    /// The register of `common_lit`.
    pub fn common_literal_reg(&self, common_lit: &CommonLiteral) -> (register: Register)
        ensures
            self@.len() == COMMON_LITERAL_COUNT,
            register == self@[common_lit.index()],
    {
        self.common_regs.reg(common_lit)
    }

    /// The command that brings `right` into the register `left`. Lists of
    /// registers and addresses have no such command.
    pub fn load_op(&self, left: Register, right: Operand) -> (command: Command)
        requires
            load_instruction(right@) is Some,
        ensures
            command@ == load_command(left, right@),
    {
        let instruction = match right.get_assign_instr_type() {
            Some(instruction) => instruction,
            None => unreached(),
        };
        let operands = vec![Operand::Register(left), right];
        assert(operand_views(operands@) =~= seq![OperandView::Register(left), right@]);
        Command::new(instruction, operands)
    }

    /// Whether `op` has an instruction.
    pub fn has_assignment_op(&self, op: &AssignmentOperator) -> (mapped: bool)
        ensures
            mapped == (assignment_instruction(*op) is Some),
    {
        match op {
            AssignmentOperator::Equal => true,
            AssignmentOperator::PlusEqual => true,
            AssignmentOperator::MinusEqual => true,
            AssignmentOperator::TimesEqual => true,
            AssignmentOperator::DivEqual => true,
            _ => false,
        }
    }

    /// The command of the assignment `rd op rs`, for the operators that have
    /// an instruction.
    pub fn assignment_op(&self, op: &AssignmentOperator, rd: Register, rs: Register) -> (command:
        Command)
        requires
            assignment_instruction(*op) is Some,
        ensures
            command@ == assignment_command(*op, rd, rs),
    {
        let instr = match op {
            AssignmentOperator::Equal => Instruction::Copy,
            AssignmentOperator::PlusEqual => Instruction::Add,
            AssignmentOperator::MinusEqual => Instruction::Minus,
            AssignmentOperator::TimesEqual => Instruction::Mul,
            AssignmentOperator::DivEqual => Instruction::Div,
            _ => unreached(),
        };
        three_registers(instr, rd, rd, rs)
    }

    /// The command of a prefix increment or decrement of `rd`.
    pub fn update_op(&self, op: &UpdateOperator, rd: Register) -> (command: Command)
        ensures
            command@ == update_command(*op, rd, self@[CommonLiteral::Num1.index()]),
    {
        let instr = match op {
            UpdateOperator::Increment => Instruction::Add,
            UpdateOperator::Decrement => Instruction::Minus,
        };
        three_registers(instr, rd, rd, self.common_literal_reg(&CommonLiteral::Num1))
    }

    /// The command that puts `op rs` into `rd`.
    pub fn unary_op(&self, op: &UnaryOperator, rd: Register, rs: Register) -> (result: Result<
        Command,
        CompilerError,
    >)
        ensures
            selected(result) == unary_command(*op, rd, rs, self@[CommonLiteral::Num0.index()]),
    {
        match op {
            UnaryOperator::Minus => Ok(
                three_registers(
                    Instruction::Minus,
                    rd,
                    self.common_literal_reg(&CommonLiteral::Num0),
                    rs,
                ),
            ),
            UnaryOperator::Plus => Ok(
                three_registers(
                    Instruction::Add,
                    rd,
                    self.common_literal_reg(&CommonLiteral::Num0),
                    rs,
                ),
            ),
            UnaryOperator::Void => Err(CompilerError::Unsupported(Construct::VoidOperator)),
            _ => Err(CompilerError::Unsupported(Construct::UnaryOperation(*op))),
        }
    }

    /// The command that puts `r0 op r1` into `rd`. The compiler lowers no
    /// binary expression yet; the table stands ready for it.
    pub fn binary_op(
        &self,
        op: &BinaryOperator,
        rd: Register,
        r0: Register,
        r1: Register,
    ) -> (result: Result<Command, CompilerError>)
        ensures
            selected(result) == binary_command(*op, rd, r0, r1),
    {
        let instr = match op {
            BinaryOperator::Equal => Instruction::CompEqual,
            BinaryOperator::NotEqual => Instruction::CompNotEqual,
            BinaryOperator::StrictEqual => Instruction::CompStrictEqual,
            BinaryOperator::StrictNotEqual => Instruction::CompStrictNotEqual,
            BinaryOperator::LessThan => Instruction::CompLessThan,
            BinaryOperator::GreaterThan => Instruction::CompGreaterThan,
            BinaryOperator::LessThanEqual => Instruction::CompLessThanEqual,
            BinaryOperator::GreaterThanEqual => Instruction::CompGreaterThanEqual,
            BinaryOperator::Plus => Instruction::Add,
            BinaryOperator::Minus => Instruction::Minus,
            BinaryOperator::Times => Instruction::Mul,
            BinaryOperator::Over => Instruction::Div,
            _ => {
                return Err(CompilerError::Unsupported(Construct::BinaryOperation(*op)));
            },
        };
        Ok(three_registers(instr, rd, r0, r1))
    }
}

} // verus!
