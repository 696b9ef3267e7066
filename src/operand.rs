//! Operand payloads as the codec sees them: sized slots whose addressing
//! content belongs to the operand subsystem and is carried through unread.
use vstd::prelude::*;
use crate::number::LowSize;

verus! {

/// One operand slot: an addressing-mode tag and the raw data that goes with it.
#[derive(Debug, Clone, Copy, PartialEq, Eq, Structural)]
pub struct Operand {
    pub mode: u8,
    pub data: u64,
}

/// Two operand slots sharing one width tag.
#[derive(Debug, Clone, Copy, PartialEq, Eq, Structural)]
pub struct SizedDual {
    pub size: LowSize,
    pub first: Operand,
    pub second: Operand,
}

/// One flexibly addressed operand slot with its width tag.
#[derive(Debug, Clone, Copy, PartialEq, Eq, Structural)]
pub struct SizedDynamic {
    pub size: LowSize,
    pub operand: Operand,
}

/// The concrete operand payload of a constructed instruction.
#[derive(Debug, Clone, Copy, PartialEq, Eq, Structural)]
pub enum Configuration {
    Dual(SizedDual),
    Dynamic(SizedDynamic),
}

/// The operand shape an opcode declares, with no data attached.
#[derive(Debug, Clone, Copy, PartialEq, Eq, Structural)]
pub enum ConfigurationCode {
    Dual,
    Dynamic,
}

impl SizedDual {
    /// The single-slot form of a dual payload: its width and its first slot.
    pub open spec fn narrowed(self) -> SizedDynamic {
        SizedDynamic { size: self.size, operand: self.first }
    }

    /// Narrows the payload to one slot, keeping the width and the first slot.
    pub fn to_dynamic(&self) -> (r: SizedDynamic)
        ensures
            r == self.narrowed(),
    {
        SizedDynamic { size: self.size, operand: self.first }
    }
}

impl SizedDynamic {
    /// The dual form of a single slot: the slot in both places.
    pub open spec fn widened(self) -> SizedDual {
        SizedDual { size: self.size, first: self.operand, second: self.operand }
    }

    /// Widens the slot to a dual payload; narrowing it again gives `self` back.
    pub fn to_dual(&self) -> (r: SizedDual)
        ensures
            r == self.widened(),
            r.narrowed() == *self,
    {
        SizedDual { size: self.size, first: self.operand, second: self.operand }
    }
}

impl Configuration {
    /// The shape of this payload.
    pub open spec fn shape(self) -> ConfigurationCode {
        match self {
            Configuration::Dual(_) => ConfigurationCode::Dual,
            Configuration::Dynamic(_) => ConfigurationCode::Dynamic,
        }
    }

    /// The shape of this payload.
    pub fn get_shape(&self) -> (r: ConfigurationCode)
        ensures
            r == self.shape(),
    {
        match self {
            Configuration::Dual(_) => ConfigurationCode::Dual,
            Configuration::Dynamic(_) => ConfigurationCode::Dynamic,
        }
    }
}

/// The shape of an optional payload; `None` when there is none.
pub open spec fn shape_of(c: Option<Configuration>) -> Option<ConfigurationCode> {
    match c {
        Some(x) => Some(x.shape()),
        None => None,
    }
}

/// The payload an opcode of shape `shape` gets from the generic dual payload
/// `d`: the payload itself for a dual opcode, its narrowed form for a dynamic
/// one, nothing for a shapeless one.
pub open spec fn projected(shape: Option<ConfigurationCode>, d: SizedDual) -> Option<Configuration> {
    match shape {
        Some(ConfigurationCode::Dual) => Some(Configuration::Dual(d)),
        Some(ConfigurationCode::Dynamic) => Some(Configuration::Dynamic(d.narrowed())),
        None => None,
    }
}

} // verus!
