//! Extensions, their opcodes, and the instruction model across all of them.
use vstd::prelude::*;
use crate::number::{LowNumber, LowSize, constrain_to_width, constrained_of, smallest_of, smallest_width};
use crate::operand::{Configuration, ConfigurationCode, SizedDual, projected, shape_of};
use self::basic::Basic;
use self::floating::Floating;

pub mod basic;
pub mod floating;

verus! {

/// A namespace of opcodes. The same number in two extensions names unrelated operations.
#[derive(Debug, Clone, Copy, PartialEq, Eq, Structural)]
pub enum Extension {
    Basic,
    Floating,
}

impl Extension {
    /// How many opcodes this extension's table holds.
    pub open spec fn table_len(self) -> u16 {
        match self {
            Extension::Basic => basic::LEN,
            Extension::Floating => floating::LEN,
        }
    }

    /// How many opcodes this extension's table holds.
    pub fn len(&self) -> (r: u16)
        ensures
            r == self.table_len(),
    {
        match self {
            Extension::Basic => basic::LEN,
            Extension::Floating => floating::LEN,
        }
    }
}

impl Default for Extension {
    /// The basic extension is the default one.
    fn default() -> (r: Self)
        ensures
            r == Extension::Basic,
    {
        Extension::Basic
    }
}

/// An opcode together with the extension whose table holds it.
#[derive(Debug, Clone, Copy, PartialEq, Eq, Structural)]
pub enum Code {
    Basic(basic::Code),
    Floating(floating::Code),
}

impl Code {
    /// The extension whose table holds this opcode.
    pub open spec fn extension(self) -> Extension {
        match self {
            Code::Basic(_) => Extension::Basic,
            Code::Floating(_) => Extension::Floating,
        }
    }

    /// The opcode's number within its extension's table.
    pub open spec fn value(self) -> u16 {
        match self {
            Code::Basic(c) => c.value(),
            Code::Floating(c) => c.value(),
        }
    }

    /// The operand shape the opcode declares; `None` for a shapeless opcode.
    pub open spec fn shape(self) -> Option<ConfigurationCode> {
        match self {
            Code::Basic(c) => c.shape(),
            Code::Floating(c) => c.shape(),
        }
    }

    /// The opcode numbered `n` in the table of `extension`, if there is one.
    pub open spec fn resolve(extension: Extension, n: u16) -> Option<Code> {
        match extension {
            Extension::Basic => match basic::Code::from_value(n) {
                Some(c) => Some(Code::Basic(c)),
                None => None,
            },
            Extension::Floating => match floating::Code::from_value(n) {
                Some(c) => Some(Code::Floating(c)),
                None => None,
            },
        }
    }

    /// Looks up `operation` in the table of `extension`; `None` when the number
    /// is at or past the end of that table.
    pub fn from_extension_and_operation(extension: Extension, operation: u16) -> (r: Option<Self>)
        ensures
            r == Code::resolve(extension, operation),
            r is Some <==> operation < extension.table_len(),
            r matches Some(c) ==> c.extension() == extension && c.value() == operation,
    {
        proof {
            basic::lemma_from_value(operation);
            floating::lemma_from_value(operation);
        }
        match extension {
            Extension::Basic => match basic::Code::from_repr(operation) {
                Some(c) => Some(Code::Basic(c)),
                None => None,
            },
            Extension::Floating => match floating::Code::from_repr(operation) {
                Some(c) => Some(Code::Floating(c)),
                None => None,
            },
        }
    }

    /// The operand shape the opcode declares; `None` for a shapeless opcode.
    pub fn get_code_configuration(&self) -> (r: Option<ConfigurationCode>)
        ensures
            r == self.shape(),
    {
        match self {
            Code::Basic(c) => c.get_code_configuration(),
            Code::Floating(c) => c.get_code_configuration(),
        }
    }

    /// The extension whose table holds this opcode.
    pub fn get_extension(&self) -> (r: Extension)
        ensures
            r == self.extension(),
    {
        match self {
            Code::Basic(_) => Extension::Basic,
            Code::Floating(_) => Extension::Floating,
        }
    }
}

/// A constructed instruction: one arm per extension.
#[derive(Debug, Clone, Copy, PartialEq, Eq, Structural)]
pub enum Operation {
    Basic(Basic),
    Floating(Floating),
}

impl Operation {
    /// The extension whose arm this instruction occupies.
    pub open spec fn extension(self) -> Extension {
        match self {
            Operation::Basic(_) => Extension::Basic,
            Operation::Floating(_) => Extension::Floating,
        }
    }

    /// The opcode of this instruction.
    pub open spec fn code(self) -> Code {
        match self {
            Operation::Basic(x) => Code::Basic(x.code()),
            Operation::Floating(x) => Code::Floating(x.code()),
        }
    }

    /// The operand payload of this instruction; `None` for a shapeless one.
    pub open spec fn configuration(self) -> Option<Configuration> {
        match self {
            Operation::Basic(x) => x.configuration(),
            Operation::Floating(x) => x.configuration(),
        }
    }

    /// The instruction with opcode `code` and payload `configuration`, when the
    /// payload has the shape the opcode declares.
    pub open spec fn assembled(code: Code, configuration: Option<Configuration>) -> Option<Operation> {
        match code {
            Code::Basic(c) => match Basic::assembled(c, configuration) {
                Some(x) => Some(Operation::Basic(x)),
                None => None,
            },
            Code::Floating(c) => match Floating::assembled(c, configuration) {
                Some(x) => Some(Operation::Floating(x)),
                None => None,
            },
        }
    }

    /// What building `code` from the generic dual payload `operands` gives:
    /// the instruction carrying the payload projected onto the opcode's shape,
    /// or `None` for a shapeless opcode.
    pub open spec fn built(code: Code, operands: SizedDual) -> Option<Operation> {
        if code.shape() is Some {
            Operation::assembled(code, projected(code.shape(), operands))
        } else {
            None
        }
    }

    /// The smallest-width encoding of this instruction.
    pub open spec fn encoded(self) -> Encoded {
        Encoded { code: smallest_of(self.code().value()), configuration: self.configuration() }
    }

    /// What decoding the number `n` in `extension` with the parsed payload
    /// `operands` gives.
    pub open spec fn decoded(extension: Extension, n: u16, operands: Option<Configuration>) -> Result<Operation, OperationDecodeError> {
        match Code::resolve(extension, n) {
            None => Err(OperationDecodeError::UnknownOpcode),
            Some(c) => match Operation::assembled(c, operands) {
                Some(op) => Ok(op),
                None => Err(OperationDecodeError::ShapeMismatch),
            },
        }
    }

    /// The extension whose arm this instruction occupies.
    pub fn extension_of(&self) -> (r: Extension)
        ensures
            r == self.extension(),
            r == self.code().extension(),
    {
        match self {
            Operation::Basic(_) => Extension::Basic,
            Operation::Floating(_) => Extension::Floating,
        }
    }

    /// The opcode of this instruction.
    pub fn get_code(&self) -> (r: Code)
        ensures
            r == self.code(),
    {
        match self {
            Operation::Basic(x) => Code::Basic(x.get_code()),
            Operation::Floating(x) => Code::Floating(x.get_code()),
        }
    }

    /// The number of this instruction's opcode within its extension's table.
    pub fn to_code(&self) -> (r: u16)
        ensures
            r == self.code().value(),
            r < self.extension().table_len(),
    {
        match self {
            Operation::Basic(x) => x.to_code(),
            Operation::Floating(x) => x.to_code(),
        }
    }

    /// The operand payload of this instruction; `None` for a shapeless one.
    pub fn get_configuration(&self) -> (r: Option<Configuration>)
        ensures
            r == self.configuration(),
            shape_of(r) == self.code().shape(),
    {
        proof {
            lemma_shape_agreement(*self);
        }
        match self {
            Operation::Basic(x) => x.get_configuration(),
            Operation::Floating(x) => x.get_configuration(),
        }
    }

    /// Convert the operation to a code, then store it in a [LowNumber] of the
    /// width `size` names. A byte keeps only the low eight bits, so the result
    /// can name a different operation.
    pub fn force_code_constrained(&self, size: &LowSize) -> (r: LowNumber)
        ensures
            r == constrained_of(self.code().value(), *size),
    {
        let code = self.to_code();
        constrain_to_width(code, size)
    }

    /// Convert the operation to a code and use the smallest data type that can
    /// represent that operation.
    pub fn to_smallest_code(&self) -> (r: LowNumber)
        ensures
            r == smallest_of(self.code().value()),
            r.value() == self.code().value() as int,
    {
        let code = self.to_code();
        smallest_width(code)
    }

    /// Builds the instruction for `operation` from a generic dual payload: a
    /// dual opcode takes it as it is, a dynamic one its narrowed form; a
    /// shapeless opcode takes no payload and gives `None`.
    pub fn from_sized_dual(operation: Code, operands: SizedDual) -> (r: Option<Self>)
        ensures
            r == Operation::built(operation, operands),
            r is Some <==> operation.shape() is Some,
            r matches Some(op) ==> op.code() == operation && op.configuration() == projected(
                operation.shape(),
                operands,
            ),
    {
        let r = match operation {
            Code::Basic(c) => match Basic::from_sized_dual(c, operands) {
                Some(x) => Some(Operation::Basic(x)),
                None => None,
            },
            Code::Floating(c) => match Floating::from_sized_dual(c, operands) {
                Some(x) => Some(Operation::Floating(x)),
                None => None,
            },
        };
        proof {
            if let Some(op) = r {
                lemma_reassembled(op);
            }
        }
        r
    }

    /// Builds the instruction for a shapeless `operation`, which carries no
    /// payload; `None` for an opcode that declares a shape.
    pub fn from_shapeless(operation: Code) -> (r: Option<Self>)
        ensures
            r == (if operation.shape() is None { Operation::assembled(operation, None) } else { None }),
            r is Some <==> operation.shape() is None,
            r matches Some(op) ==> op.code() == operation && op.configuration() is None,
    {
        let r = match operation {
            Code::Basic(c) => match Basic::from_shapeless(c) {
                Some(x) => Some(Operation::Basic(x)),
                None => None,
            },
            Code::Floating(c) => match Floating::from_shapeless(c) {
                Some(x) => Some(Operation::Floating(x)),
                None => None,
            },
        };
        proof {
            if let Some(op) = r {
                lemma_reassembled(op);
            }
        }
        r
    }

    /// Encodes the instruction: its opcode number in the smallest width that
    /// holds it, and its payload.
    pub fn encode(&self) -> (r: Encoded)
        ensures
            r == self.encoded(),
    {
        Encoded { code: self.to_smallest_code(), configuration: self.get_configuration() }
    }

    /// Decodes an instruction of `extension` from its opcode number and the
    /// payload the operand subsystem parsed for it. Fails with `UnknownOpcode`
    /// when the number is past the end of the table, and with `ShapeMismatch`
    /// when the payload's shape differs from the one the opcode declares.
    pub fn decode(extension: Extension, code: &LowNumber, operands: Option<Configuration>) -> (r: Result<Self, OperationDecodeError>)
        ensures
            r == Operation::decoded(extension, code.value() as u16, operands),
            r == Err::<Self, _>(OperationDecodeError::UnknownOpcode) <==> code.value() >= extension.table_len(),
            r == Err::<Self, _>(OperationDecodeError::ShapeMismatch) <==> code.value() < extension.table_len()
                && Code::resolve(extension, code.value() as u16)->Some_0.shape() != shape_of(operands),
            r matches Ok(op) ==> op.extension() == extension && op.code().value() == code.value()
                && op.configuration() == operands,
    {
        let n = code.to_u16();
        let c = match Code::from_extension_and_operation(extension, n) {
            Some(c) => c,
            None => return Err(OperationDecodeError::UnknownOpcode),
        };
        let built = match operands {
            None => Operation::from_shapeless(c),
            Some(Configuration::Dual(d)) => match c.get_code_configuration() {
                Some(ConfigurationCode::Dual) => Operation::from_sized_dual(c, d),
                _ => None,
            },
            Some(Configuration::Dynamic(x)) => match c.get_code_configuration() {
                Some(ConfigurationCode::Dynamic) => Operation::from_sized_dual(c, x.to_dual()),
                _ => None,
            },
        };
        match built {
            Some(op) => Ok(op),
            None => Err(OperationDecodeError::ShapeMismatch),
        }
    }
}

impl From<Operation> for Extension {
    fn from(value: Operation) -> (r: Self)
        ensures
            r == value.extension(),
    {
        value.extension_of()
    }
}

impl vstd::std_specs::convert::FromSpecImpl<Operation> for Extension {
    open spec fn obeys_from_spec() -> bool {
        true
    }

    open spec fn from_spec(v: Operation) -> Extension {
        v.extension()
    }
}

/// Assembly succeeds exactly when the payload has the opcode's shape, and the
/// result carries that opcode and that payload.
pub proof fn lemma_assembled(code: Code, configuration: Option<Configuration>)
    ensures
        Operation::assembled(code, configuration) is Some <==> code.shape() == shape_of(configuration),
        Operation::assembled(code, configuration) matches Some(op) ==> op.code() == code
            && op.configuration() == configuration,
{
    match code {
        Code::Basic(c) => basic::lemma_assembled(c, configuration),
        Code::Floating(c) => floating::lemma_assembled(c, configuration),
    }
}

/// Every instruction is the one assembled from its own opcode and payload.
pub proof fn lemma_reassembled(op: Operation)
    ensures
        Operation::assembled(op.code(), op.configuration()) == Some(op),
{
    match op {
        Operation::Basic(x) => basic::lemma_reassembled(x),
        Operation::Floating(x) => floating::lemma_reassembled(x),
    }
}

/// The payload an instruction carries has exactly the shape its opcode
/// declares: dual for a dual opcode, dynamic for a dynamic one, none for a
/// shapeless one.
pub proof fn lemma_shape_agreement(op: Operation)
    ensures
        shape_of(op.configuration()) == op.code().shape(),
{
    match op {
        Operation::Basic(x) => basic::lemma_shape_agreement(x),
        Operation::Floating(x) => floating::lemma_shape_agreement(x),
    }
}

/// An instruction as it is written out: its opcode number in some width and its payload.
#[derive(Debug, Clone, Copy, PartialEq, Eq, Structural)]
pub struct Encoded {
    pub code: LowNumber,
    pub configuration: Option<Configuration>,
}

/// Failures of decoding an instruction.
#[derive(Debug, Clone, Copy, PartialEq, Eq, Structural)]
pub enum OperationDecodeError {
    /// The number is at or past the end of the extension's table.
    UnknownOpcode,
    /// The payload does not have the shape the opcode declares.
    ShapeMismatch,
}

/// Round trip: building an instruction from an opcode and a generic payload
/// succeeds exactly for opcodes that declare a shape, and decoding the
/// encoding of what it builds, in the opcode's own extension, gives that
/// instruction back.
pub proof fn lemma_round_trip(code: Code, operands: SizedDual)
    ensures
        Operation::built(code, operands) is Some <==> code.shape() is Some,
        Operation::built(code, operands) matches Some(op) ==> Operation::decoded(
            code.extension(),
            op.encoded().code.value() as u16,
            op.encoded().configuration,
        ) == Ok::<Operation, OperationDecodeError>(op),
{
    lemma_assembled(code, projected(code.shape(), operands));
    if let Some(op) = Operation::built(code, operands) {
        lemma_encode_decode(op);
    }
}

/// Decoding the encoding of any instruction, in its own extension, gives the
/// instruction back.
pub proof fn lemma_encode_decode(op: Operation)
    ensures
        Operation::decoded(op.extension(), op.encoded().code.value() as u16, op.encoded().configuration)
            == Ok::<Operation, OperationDecodeError>(op),
{
    lemma_reassembled(op);
    match op {
        Operation::Basic(x) => basic::lemma_value_inverse(x.code()),
        Operation::Floating(x) => floating::lemma_value_inverse(x.code()),
    }
}

/// Range validation: the numbers an extension resolves are exactly those below
/// its table's length; the last entry resolves and the length itself does not.
pub proof fn lemma_range_validation(extension: Extension)
    ensures
        extension.table_len() > 0,
        Code::resolve(extension, (extension.table_len() - 1) as u16) is Some,
        Code::resolve(extension, extension.table_len()) is None,
        forall|n: u16| #[trigger] Code::resolve(extension, n) is Some <==> n < extension.table_len(),
{
    assert forall|n: u16| #[trigger] Code::resolve(extension, n) is Some <==> n < extension.table_len() by {
        basic::lemma_from_value(n);
        floating::lemma_from_value(n);
    }
}

/// Extension recovery: an opcode resolved in an extension belongs to it, an
/// instruction decoded in an extension occupies that extension's arm, and every
/// instruction's arm is the extension of its opcode.
pub proof fn lemma_extension_recovery(
    extension: Extension,
    n: u16,
    operands: Option<Configuration>,
    op: Operation,
)
    ensures
        Code::resolve(extension, n) matches Some(c) ==> c.extension() == extension && c.value() == n,
        Operation::decoded(extension, n, operands) matches Ok(d) ==> d.extension() == extension,
        op.extension() == op.code().extension(),
{
    basic::lemma_from_value(n);
    floating::lemma_from_value(n);
    if let Some(c) = Code::resolve(extension, n) {
        lemma_assembled(c, operands);
    }
}

} // verus!
