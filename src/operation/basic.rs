//! The basic integer and control opcode table and its instructions.
use vstd::prelude::*;
use crate::operand::{Configuration, ConfigurationCode, SizedDual, SizedDynamic, projected, shape_of};

verus! {

/// Number of opcodes in the basic table.
pub const LEN: u16 = 21;

/// The opcodes of this table, numbered densely from 0 in declared order.
#[derive(Debug, Clone, Copy, PartialEq, Eq, Structural)]
pub enum Code {
    Add,
    CarryingAdd,
    Subtract,
    BorrowingSubtract,
    Multiply,
    Divide,
    Copy,
    AppendStack,
    AppendStackRegisters,
    DetachStack,
    DetachStackRegisters,
    LogicalAnd,
    LogicalOr,
    LogicalNot,
    LogicalXor,
    Increment,
    Decrement,
    JumpIfZero,
    JumpIfOverflow,
    JumpIfRegrouping,
    JumpIfNegative,
}

impl Code {
    /// The opcode's number in the table.
    pub open spec fn value(self) -> u16 {
        match self {
            Code::Add => 0,
            Code::CarryingAdd => 1,
            Code::Subtract => 2,
            Code::BorrowingSubtract => 3,
            Code::Multiply => 4,
            Code::Divide => 5,
            Code::Copy => 6,
            Code::AppendStack => 7,
            Code::AppendStackRegisters => 8,
            Code::DetachStack => 9,
            Code::DetachStackRegisters => 10,
            Code::LogicalAnd => 11,
            Code::LogicalOr => 12,
            Code::LogicalNot => 13,
            Code::LogicalXor => 14,
            Code::Increment => 15,
            Code::Decrement => 16,
            Code::JumpIfZero => 17,
            Code::JumpIfOverflow => 18,
            Code::JumpIfRegrouping => 19,
            Code::JumpIfNegative => 20,
        }
    }

    /// The opcode numbered `n`, if the table has one.
    pub open spec fn from_value(n: u16) -> Option<Code> {
        match n {
            0 => Some(Code::Add),
            1 => Some(Code::CarryingAdd),
            2 => Some(Code::Subtract),
            3 => Some(Code::BorrowingSubtract),
            4 => Some(Code::Multiply),
            5 => Some(Code::Divide),
            6 => Some(Code::Copy),
            7 => Some(Code::AppendStack),
            8 => Some(Code::AppendStackRegisters),
            9 => Some(Code::DetachStack),
            10 => Some(Code::DetachStackRegisters),
            11 => Some(Code::LogicalAnd),
            12 => Some(Code::LogicalOr),
            13 => Some(Code::LogicalNot),
            14 => Some(Code::LogicalXor),
            15 => Some(Code::Increment),
            16 => Some(Code::Decrement),
            17 => Some(Code::JumpIfZero),
            18 => Some(Code::JumpIfOverflow),
            19 => Some(Code::JumpIfRegrouping),
            20 => Some(Code::JumpIfNegative),
            _ => None,
        }
    }

    /// The operand shape the opcode declares; `None` for a shapeless opcode.
    pub open spec fn shape(self) -> Option<ConfigurationCode> {
        match self {
            Code::Add
            | Code::CarryingAdd
            | Code::Subtract
            | Code::BorrowingSubtract
            | Code::Multiply
            | Code::Divide
            | Code::Copy => Some(ConfigurationCode::Dual),
            Code::AppendStack
            | Code::DetachStack
            | Code::LogicalAnd
            | Code::LogicalOr
            | Code::LogicalNot
            | Code::LogicalXor
            | Code::Increment
            | Code::Decrement
            | Code::JumpIfZero
            | Code::JumpIfOverflow
            | Code::JumpIfRegrouping
            | Code::JumpIfNegative => Some(ConfigurationCode::Dynamic),
            Code::AppendStackRegisters
            | Code::DetachStackRegisters => None,
        }
    }

    /// Looks up the opcode numbered `n`; `None` when `n` is at or past the end of the table.
    pub fn from_repr(n: u16) -> (r: Option<Code>)
        ensures
            r == Code::from_value(n),
            r is Some <==> n < LEN,
            r matches Some(c) ==> c.value() == n,
    {
        match n {
            0 => Some(Code::Add),
            1 => Some(Code::CarryingAdd),
            2 => Some(Code::Subtract),
            3 => Some(Code::BorrowingSubtract),
            4 => Some(Code::Multiply),
            5 => Some(Code::Divide),
            6 => Some(Code::Copy),
            7 => Some(Code::AppendStack),
            8 => Some(Code::AppendStackRegisters),
            9 => Some(Code::DetachStack),
            10 => Some(Code::DetachStackRegisters),
            11 => Some(Code::LogicalAnd),
            12 => Some(Code::LogicalOr),
            13 => Some(Code::LogicalNot),
            14 => Some(Code::LogicalXor),
            15 => Some(Code::Increment),
            16 => Some(Code::Decrement),
            17 => Some(Code::JumpIfZero),
            18 => Some(Code::JumpIfOverflow),
            19 => Some(Code::JumpIfRegrouping),
            20 => Some(Code::JumpIfNegative),
            _ => None,
        }
    }

    /// The opcode's number in the table.
    pub fn to_u16(&self) -> (r: u16)
        ensures
            r == self.value(),
            r < LEN,
    {
        match self {
            Code::Add => 0,
            Code::CarryingAdd => 1,
            Code::Subtract => 2,
            Code::BorrowingSubtract => 3,
            Code::Multiply => 4,
            Code::Divide => 5,
            Code::Copy => 6,
            Code::AppendStack => 7,
            Code::AppendStackRegisters => 8,
            Code::DetachStack => 9,
            Code::DetachStackRegisters => 10,
            Code::LogicalAnd => 11,
            Code::LogicalOr => 12,
            Code::LogicalNot => 13,
            Code::LogicalXor => 14,
            Code::Increment => 15,
            Code::Decrement => 16,
            Code::JumpIfZero => 17,
            Code::JumpIfOverflow => 18,
            Code::JumpIfRegrouping => 19,
            Code::JumpIfNegative => 20,
        }
    }

    /// The operand shape the opcode declares; `None` for a shapeless opcode.
    pub fn get_code_configuration(&self) -> (r: Option<ConfigurationCode>)
        ensures
            r == self.shape(),
    {
        match self {
            Code::Add
            | Code::CarryingAdd
            | Code::Subtract
            | Code::BorrowingSubtract
            | Code::Multiply
            | Code::Divide
            | Code::Copy => Some(ConfigurationCode::Dual),
            Code::AppendStack
            | Code::DetachStack
            | Code::LogicalAnd
            | Code::LogicalOr
            | Code::LogicalNot
            | Code::LogicalXor
            | Code::Increment
            | Code::Decrement
            | Code::JumpIfZero
            | Code::JumpIfOverflow
            | Code::JumpIfRegrouping
            | Code::JumpIfNegative => Some(ConfigurationCode::Dynamic),
            Code::AppendStackRegisters
            | Code::DetachStackRegisters => None,
        }
    }
}

/// Every opcode lies inside the table, and its number looks it up again.
pub proof fn lemma_value_inverse(c: Code)
    ensures
        c.value() < LEN,
        Code::from_value(c.value()) == Some(c),
{
}

/// A number names an opcode exactly when it is below the table's length, and
/// the opcode it names carries that number.
pub proof fn lemma_from_value(n: u16)
    ensures
        Code::from_value(n) is Some <==> n < LEN,
        Code::from_value(n) matches Some(c) ==> c.value() == n,
{
}

/// A constructed instruction of this table: its opcode and the payload its shape asks for.
#[derive(Debug, Clone, Copy, PartialEq, Eq, Structural)]
pub enum Basic {
    Add(SizedDual),
    CarryingAdd(SizedDual),
    Subtract(SizedDual),
    BorrowingSubtract(SizedDual),
    Multiply(SizedDual),
    Divide(SizedDual),
    /// Copy the value between the operands corresponding to the result destination of the data.
    Copy(SizedDual),
    /// Append an item from the operand onto the stack.
    AppendStack(SizedDynamic),
    /// Append all public registers to the stack. The stack pointer register will be the one before
    /// calling this operation.
    AppendStackRegisters,
    /// Remove an item from the stack and store it in the operand.
    DetachStack(SizedDynamic),
    /// Copy the public registers from the stack back into the public registers while removing them
    /// from the stack. The stack pointer is not loaded back into the stack pointer register and only
    /// removed from the stack.
    DetachStackRegisters,
    LogicalAnd(SizedDynamic),
    LogicalOr(SizedDynamic),
    LogicalNot(SizedDynamic),
    LogicalXor(SizedDynamic),
    Increment(SizedDynamic),
    Decrement(SizedDynamic),
    JumpIfZero(SizedDynamic),
    JumpIfOverflow(SizedDynamic),
    JumpIfRegrouping(SizedDynamic),
    JumpIfNegative(SizedDynamic),
}

impl Basic {
    /// The opcode of this instruction.
    pub open spec fn code(self) -> Code {
        match self {
            Basic::Add(_) => Code::Add,
            Basic::CarryingAdd(_) => Code::CarryingAdd,
            Basic::Subtract(_) => Code::Subtract,
            Basic::BorrowingSubtract(_) => Code::BorrowingSubtract,
            Basic::Multiply(_) => Code::Multiply,
            Basic::Divide(_) => Code::Divide,
            Basic::Copy(_) => Code::Copy,
            Basic::AppendStack(_) => Code::AppendStack,
            Basic::AppendStackRegisters => Code::AppendStackRegisters,
            Basic::DetachStack(_) => Code::DetachStack,
            Basic::DetachStackRegisters => Code::DetachStackRegisters,
            Basic::LogicalAnd(_) => Code::LogicalAnd,
            Basic::LogicalOr(_) => Code::LogicalOr,
            Basic::LogicalNot(_) => Code::LogicalNot,
            Basic::LogicalXor(_) => Code::LogicalXor,
            Basic::Increment(_) => Code::Increment,
            Basic::Decrement(_) => Code::Decrement,
            Basic::JumpIfZero(_) => Code::JumpIfZero,
            Basic::JumpIfOverflow(_) => Code::JumpIfOverflow,
            Basic::JumpIfRegrouping(_) => Code::JumpIfRegrouping,
            Basic::JumpIfNegative(_) => Code::JumpIfNegative,
        }
    }

    /// The operand payload of this instruction; `None` for a shapeless one.
    pub open spec fn configuration(self) -> Option<Configuration> {
        match self {
            Basic::Add(x)
            | Basic::CarryingAdd(x)
            | Basic::Subtract(x)
            | Basic::BorrowingSubtract(x)
            | Basic::Multiply(x)
            | Basic::Divide(x)
            | Basic::Copy(x) => Some(Configuration::Dual(x)),
            Basic::AppendStack(x)
            | Basic::DetachStack(x)
            | Basic::LogicalAnd(x)
            | Basic::LogicalOr(x)
            | Basic::LogicalNot(x)
            | Basic::LogicalXor(x)
            | Basic::Increment(x)
            | Basic::Decrement(x)
            | Basic::JumpIfZero(x)
            | Basic::JumpIfOverflow(x)
            | Basic::JumpIfRegrouping(x)
            | Basic::JumpIfNegative(x) => Some(Configuration::Dynamic(x)),
            Basic::AppendStackRegisters
            | Basic::DetachStackRegisters => None,
        }
    }

    /// The instruction with opcode `code` and payload `configuration`, when the
    /// payload has the shape the opcode declares.
    pub open spec fn assembled(code: Code, configuration: Option<Configuration>) -> Option<Basic> {
        match (code, configuration) {
            (Code::Add, Some(Configuration::Dual(x))) => Some(Basic::Add(x)),
            (Code::CarryingAdd, Some(Configuration::Dual(x))) => Some(Basic::CarryingAdd(x)),
            (Code::Subtract, Some(Configuration::Dual(x))) => Some(Basic::Subtract(x)),
            (Code::BorrowingSubtract, Some(Configuration::Dual(x))) => Some(Basic::BorrowingSubtract(x)),
            (Code::Multiply, Some(Configuration::Dual(x))) => Some(Basic::Multiply(x)),
            (Code::Divide, Some(Configuration::Dual(x))) => Some(Basic::Divide(x)),
            (Code::Copy, Some(Configuration::Dual(x))) => Some(Basic::Copy(x)),
            (Code::AppendStack, Some(Configuration::Dynamic(x))) => Some(Basic::AppendStack(x)),
            (Code::AppendStackRegisters, None) => Some(Basic::AppendStackRegisters),
            (Code::DetachStack, Some(Configuration::Dynamic(x))) => Some(Basic::DetachStack(x)),
            (Code::DetachStackRegisters, None) => Some(Basic::DetachStackRegisters),
            (Code::LogicalAnd, Some(Configuration::Dynamic(x))) => Some(Basic::LogicalAnd(x)),
            (Code::LogicalOr, Some(Configuration::Dynamic(x))) => Some(Basic::LogicalOr(x)),
            (Code::LogicalNot, Some(Configuration::Dynamic(x))) => Some(Basic::LogicalNot(x)),
            (Code::LogicalXor, Some(Configuration::Dynamic(x))) => Some(Basic::LogicalXor(x)),
            (Code::Increment, Some(Configuration::Dynamic(x))) => Some(Basic::Increment(x)),
            (Code::Decrement, Some(Configuration::Dynamic(x))) => Some(Basic::Decrement(x)),
            (Code::JumpIfZero, Some(Configuration::Dynamic(x))) => Some(Basic::JumpIfZero(x)),
            (Code::JumpIfOverflow, Some(Configuration::Dynamic(x))) => Some(Basic::JumpIfOverflow(x)),
            (Code::JumpIfRegrouping, Some(Configuration::Dynamic(x))) => Some(Basic::JumpIfRegrouping(x)),
            (Code::JumpIfNegative, Some(Configuration::Dynamic(x))) => Some(Basic::JumpIfNegative(x)),
            _ => None,
        }
    }

    /// The opcode of this instruction.
    pub fn get_code(&self) -> (r: Code)
        ensures
            r == self.code(),
    {
        match self {
            Basic::Add(_) => Code::Add,
            Basic::CarryingAdd(_) => Code::CarryingAdd,
            Basic::Subtract(_) => Code::Subtract,
            Basic::BorrowingSubtract(_) => Code::BorrowingSubtract,
            Basic::Multiply(_) => Code::Multiply,
            Basic::Divide(_) => Code::Divide,
            Basic::Copy(_) => Code::Copy,
            Basic::AppendStack(_) => Code::AppendStack,
            Basic::AppendStackRegisters => Code::AppendStackRegisters,
            Basic::DetachStack(_) => Code::DetachStack,
            Basic::DetachStackRegisters => Code::DetachStackRegisters,
            Basic::LogicalAnd(_) => Code::LogicalAnd,
            Basic::LogicalOr(_) => Code::LogicalOr,
            Basic::LogicalNot(_) => Code::LogicalNot,
            Basic::LogicalXor(_) => Code::LogicalXor,
            Basic::Increment(_) => Code::Increment,
            Basic::Decrement(_) => Code::Decrement,
            Basic::JumpIfZero(_) => Code::JumpIfZero,
            Basic::JumpIfOverflow(_) => Code::JumpIfOverflow,
            Basic::JumpIfRegrouping(_) => Code::JumpIfRegrouping,
            Basic::JumpIfNegative(_) => Code::JumpIfNegative,
        }
    }

    /// The number of this instruction's opcode.
    pub fn to_code(&self) -> (r: u16)
        ensures
            r == self.code().value(),
            r < LEN,
    {
        self.get_code().to_u16()
    }

    /// The operand payload of this instruction; `None` for a shapeless one.
    pub fn get_configuration(&self) -> (r: Option<Configuration>)
        ensures
            r == self.configuration(),
    {
        match *self {
            Basic::Add(x)
            | Basic::CarryingAdd(x)
            | Basic::Subtract(x)
            | Basic::BorrowingSubtract(x)
            | Basic::Multiply(x)
            | Basic::Divide(x)
            | Basic::Copy(x) => Some(Configuration::Dual(x)),
            Basic::AppendStack(x)
            | Basic::DetachStack(x)
            | Basic::LogicalAnd(x)
            | Basic::LogicalOr(x)
            | Basic::LogicalNot(x)
            | Basic::LogicalXor(x)
            | Basic::Increment(x)
            | Basic::Decrement(x)
            | Basic::JumpIfZero(x)
            | Basic::JumpIfOverflow(x)
            | Basic::JumpIfRegrouping(x)
            | Basic::JumpIfNegative(x) => Some(Configuration::Dynamic(x)),
            Basic::AppendStackRegisters
            | Basic::DetachStackRegisters => None,
        }
    }

    /// Builds the instruction for `code` from a generic dual payload: a dual opcode
    /// takes it as it is, a dynamic one takes its narrowed form, a shapeless one
    /// takes no payload and gives `None`.
    pub fn from_sized_dual(code: Code, operands: SizedDual) -> (r: Option<Basic>)
        ensures
            r is Some <==> code.shape() is Some,
            r matches Some(b) ==> b.code() == code && b.configuration() == projected(code.shape(), operands),
    {
        let narrowed = operands.to_dynamic();
        match code {
            Code::Add => Some(Basic::Add(operands)),
            Code::CarryingAdd => Some(Basic::CarryingAdd(operands)),
            Code::Subtract => Some(Basic::Subtract(operands)),
            Code::BorrowingSubtract => Some(Basic::BorrowingSubtract(operands)),
            Code::Multiply => Some(Basic::Multiply(operands)),
            Code::Divide => Some(Basic::Divide(operands)),
            Code::Copy => Some(Basic::Copy(operands)),
            Code::AppendStack => Some(Basic::AppendStack(narrowed)),
            Code::AppendStackRegisters => None,
            Code::DetachStack => Some(Basic::DetachStack(narrowed)),
            Code::DetachStackRegisters => None,
            Code::LogicalAnd => Some(Basic::LogicalAnd(narrowed)),
            Code::LogicalOr => Some(Basic::LogicalOr(narrowed)),
            Code::LogicalNot => Some(Basic::LogicalNot(narrowed)),
            Code::LogicalXor => Some(Basic::LogicalXor(narrowed)),
            Code::Increment => Some(Basic::Increment(narrowed)),
            Code::Decrement => Some(Basic::Decrement(narrowed)),
            Code::JumpIfZero => Some(Basic::JumpIfZero(narrowed)),
            Code::JumpIfOverflow => Some(Basic::JumpIfOverflow(narrowed)),
            Code::JumpIfRegrouping => Some(Basic::JumpIfRegrouping(narrowed)),
            Code::JumpIfNegative => Some(Basic::JumpIfNegative(narrowed)),
        }
    }

    /// Builds the instruction for a shapeless `code`, which carries no payload;
    /// `None` for an opcode that declares a shape.
    pub fn from_shapeless(code: Code) -> (r: Option<Basic>)
        ensures
            r is Some <==> code.shape() is None,
            r matches Some(b) ==> b.code() == code && b.configuration() is None,
    {
        match code {
            Code::AppendStackRegisters => Some(Basic::AppendStackRegisters),
            Code::DetachStackRegisters => Some(Basic::DetachStackRegisters),
            _ => None,
        }
    }
}

/// The payload an instruction carries has the shape its opcode declares.
pub proof fn lemma_shape_agreement(b: Basic)
    ensures
        shape_of(b.configuration()) == b.code().shape(),
{
}

/// Assembly succeeds exactly when the payload has the opcode's shape, and the
/// result carries that opcode and that payload.
pub proof fn lemma_assembled(code: Code, configuration: Option<Configuration>)
    ensures
        Basic::assembled(code, configuration) is Some <==> code.shape() == shape_of(configuration),
        Basic::assembled(code, configuration) matches Some(b) ==> b.code() == code && b.configuration() == configuration,
{
}

/// Every instruction is the one assembled from its own opcode and payload.
pub proof fn lemma_reassembled(b: Basic)
    ensures
        Basic::assembled(b.code(), b.configuration()) == Some(b),
{
}

} // verus!
