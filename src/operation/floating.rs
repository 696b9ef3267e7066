//! The floating-point opcode table and its instructions.
use vstd::prelude::*;
use crate::operand::{Configuration, ConfigurationCode, SizedDual, SizedDynamic, projected, shape_of};

verus! {

/// Number of opcodes in the floating-point table.
pub const LEN: u16 = 6;

/// The opcodes of this table, numbered densely from 0 in declared order.
#[derive(Debug, Clone, Copy, PartialEq, Eq, Structural)]
pub enum Code {
    Add,
    Subtract,
    Multiply,
    Divide,
    Negate,
    Absolute,
}

impl Code {
    /// The opcode's number in the table.
    pub open spec fn value(self) -> u16 {
        match self {
            Code::Add => 0,
            Code::Subtract => 1,
            Code::Multiply => 2,
            Code::Divide => 3,
            Code::Negate => 4,
            Code::Absolute => 5,
        }
    }

    /// The opcode numbered `n`, if the table has one.
    pub open spec fn from_value(n: u16) -> Option<Code> {
        match n {
            0 => Some(Code::Add),
            1 => Some(Code::Subtract),
            2 => Some(Code::Multiply),
            3 => Some(Code::Divide),
            4 => Some(Code::Negate),
            5 => Some(Code::Absolute),
            _ => None,
        }
    }

    /// The operand shape the opcode declares; `None` for a shapeless opcode.
    pub open spec fn shape(self) -> Option<ConfigurationCode> {
        match self {
            Code::Add
            | Code::Subtract
            | Code::Multiply
            | Code::Divide => Some(ConfigurationCode::Dual),
            Code::Negate
            | Code::Absolute => Some(ConfigurationCode::Dynamic),
        }
    }

    /// Looks up the opcode numbered `n`; `None` when `n` is at or past the end of the table.
    pub fn from_repr(n: u16) -> (r: Option<Code>)
        ensures
            r == Code::from_value(n),
            r is Some <==> n < LEN,
            r matches Some(c) ==> c.value() == n,
    {
        match n {
            0 => Some(Code::Add),
            1 => Some(Code::Subtract),
            2 => Some(Code::Multiply),
            3 => Some(Code::Divide),
            4 => Some(Code::Negate),
            5 => Some(Code::Absolute),
            _ => None,
        }
    }

    /// The opcode's number in the table.
    pub fn to_u16(&self) -> (r: u16)
        ensures
            r == self.value(),
            r < LEN,
    {
        match self {
            Code::Add => 0,
            Code::Subtract => 1,
            Code::Multiply => 2,
            Code::Divide => 3,
            Code::Negate => 4,
            Code::Absolute => 5,
        }
    }

    /// The operand shape the opcode declares; `None` for a shapeless opcode.
    pub fn get_code_configuration(&self) -> (r: Option<ConfigurationCode>)
        ensures
            r == self.shape(),
    {
        match self {
            Code::Add
            | Code::Subtract
            | Code::Multiply
            | Code::Divide => Some(ConfigurationCode::Dual),
            Code::Negate
            | Code::Absolute => Some(ConfigurationCode::Dynamic),
        }
    }
}

/// Every opcode lies inside the table, and its number looks it up again.
pub proof fn lemma_value_inverse(c: Code)
    ensures
        c.value() < LEN,
        Code::from_value(c.value()) == Some(c),
{
}

/// A number names an opcode exactly when it is below the table's length, and
/// the opcode it names carries that number.
pub proof fn lemma_from_value(n: u16)
    ensures
        Code::from_value(n) is Some <==> n < LEN,
        Code::from_value(n) matches Some(c) ==> c.value() == n,
{
}

/// A constructed instruction of this table: its opcode and the payload its shape asks for.
#[derive(Debug, Clone, Copy, PartialEq, Eq, Structural)]
pub enum Floating {
    Add(SizedDual),
    Subtract(SizedDual),
    Multiply(SizedDual),
    Divide(SizedDual),
    Negate(SizedDynamic),
    Absolute(SizedDynamic),
}

impl Floating {
    /// The opcode of this instruction.
    pub open spec fn code(self) -> Code {
        match self {
            Floating::Add(_) => Code::Add,
            Floating::Subtract(_) => Code::Subtract,
            Floating::Multiply(_) => Code::Multiply,
            Floating::Divide(_) => Code::Divide,
            Floating::Negate(_) => Code::Negate,
            Floating::Absolute(_) => Code::Absolute,
        }
    }

    /// The operand payload of this instruction; `None` for a shapeless one.
    pub open spec fn configuration(self) -> Option<Configuration> {
        match self {
            Floating::Add(x)
            | Floating::Subtract(x)
            | Floating::Multiply(x)
            | Floating::Divide(x) => Some(Configuration::Dual(x)),
            Floating::Negate(x)
            | Floating::Absolute(x) => Some(Configuration::Dynamic(x)),
        }
    }

    /// The instruction with opcode `code` and payload `configuration`, when the
    /// payload has the shape the opcode declares.
    pub open spec fn assembled(code: Code, configuration: Option<Configuration>) -> Option<Floating> {
        match (code, configuration) {
            (Code::Add, Some(Configuration::Dual(x))) => Some(Floating::Add(x)),
            (Code::Subtract, Some(Configuration::Dual(x))) => Some(Floating::Subtract(x)),
            (Code::Multiply, Some(Configuration::Dual(x))) => Some(Floating::Multiply(x)),
            (Code::Divide, Some(Configuration::Dual(x))) => Some(Floating::Divide(x)),
            (Code::Negate, Some(Configuration::Dynamic(x))) => Some(Floating::Negate(x)),
            (Code::Absolute, Some(Configuration::Dynamic(x))) => Some(Floating::Absolute(x)),
            _ => None,
        }
    }

    /// The opcode of this instruction.
    pub fn get_code(&self) -> (r: Code)
        ensures
            r == self.code(),
    {
        match self {
            Floating::Add(_) => Code::Add,
            Floating::Subtract(_) => Code::Subtract,
            Floating::Multiply(_) => Code::Multiply,
            Floating::Divide(_) => Code::Divide,
            Floating::Negate(_) => Code::Negate,
            Floating::Absolute(_) => Code::Absolute,
        }
    }

    /// The number of this instruction's opcode.
    pub fn to_code(&self) -> (r: u16)
        ensures
            r == self.code().value(),
            r < LEN,
    {
        self.get_code().to_u16()
    }

    /// The operand payload of this instruction; `None` for a shapeless one.
    pub fn get_configuration(&self) -> (r: Option<Configuration>)
        ensures
            r == self.configuration(),
    {
        match *self {
            Floating::Add(x)
            | Floating::Subtract(x)
            | Floating::Multiply(x)
            | Floating::Divide(x) => Some(Configuration::Dual(x)),
            Floating::Negate(x)
            | Floating::Absolute(x) => Some(Configuration::Dynamic(x)),
        }
    }

    /// Builds the instruction for `code` from a generic dual payload: a dual opcode
    /// takes it as it is, a dynamic one takes its narrowed form, a shapeless one
    /// takes no payload and gives `None`.
    pub fn from_sized_dual(code: Code, operands: SizedDual) -> (r: Option<Floating>)
        ensures
            r is Some <==> code.shape() is Some,
            r matches Some(b) ==> b.code() == code && b.configuration() == projected(code.shape(), operands),
    {
        let narrowed = operands.to_dynamic();
        match code {
            Code::Add => Some(Floating::Add(operands)),
            Code::Subtract => Some(Floating::Subtract(operands)),
            Code::Multiply => Some(Floating::Multiply(operands)),
            Code::Divide => Some(Floating::Divide(operands)),
            Code::Negate => Some(Floating::Negate(narrowed)),
            Code::Absolute => Some(Floating::Absolute(narrowed)),
        }
    }

    /// Builds the instruction for a shapeless `code`, which carries no payload;
    /// `None` for an opcode that declares a shape.
    pub fn from_shapeless(code: Code) -> (r: Option<Floating>)
        ensures
            r is Some <==> code.shape() is None,
            r matches Some(b) ==> b.code() == code && b.configuration() is None,
    {
        None
    }
}

/// The payload an instruction carries has the shape its opcode declares.
pub proof fn lemma_shape_agreement(b: Floating)
    ensures
        shape_of(b.configuration()) == b.code().shape(),
{
}

/// Assembly succeeds exactly when the payload has the opcode's shape, and the
/// result carries that opcode and that payload.
pub proof fn lemma_assembled(code: Code, configuration: Option<Configuration>)
    ensures
        Floating::assembled(code, configuration) is Some <==> code.shape() == shape_of(configuration),
        Floating::assembled(code, configuration) matches Some(b) ==> b.code() == code && b.configuration() == configuration,
{
}

/// Every instruction is the one assembled from its own opcode and payload.
pub proof fn lemma_reassembled(b: Floating)
    ensures
        Floating::assembled(b.code(), b.configuration()) == Some(b),
{
}

} // verus!
