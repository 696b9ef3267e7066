//! Opcode numbers held in one of two widths: a byte or a 16-bit word.
use vstd::prelude::*;

verus! {

/// The width used to store an opcode number.
#[derive(Debug, Clone, Copy, PartialEq, Eq, Structural)]
pub enum LowSize {
    Byte,
    Word,
}

/// An opcode number stored in the width named by its variant.
#[derive(Debug, Clone, Copy, PartialEq, Eq, Structural)]
pub enum LowNumber {
    Byte(u8),
    Word(u16),
}

impl LowNumber {
    /// The width this number is stored in.
    pub open spec fn size(self) -> LowSize {
        match self {
            LowNumber::Byte(_) => LowSize::Byte,
            LowNumber::Word(_) => LowSize::Word,
        }
    }

    /// The numeric value held, whatever its width.
    pub open spec fn value(self) -> int {
        match self {
            LowNumber::Byte(b) => b as int,
            LowNumber::Word(w) => w as int,
        }
    }

    /// The width this number is stored in.
    pub fn get_size(&self) -> (r: LowSize)
        ensures
            r == self.size(),
    {
        match self {
            LowNumber::Byte(_) => LowSize::Byte,
            LowNumber::Word(_) => LowSize::Word,
        }
    }

    /// The numeric value held, widened to 16 bits.
    pub fn to_u16(&self) -> (r: u16)
        ensures
            r as int == self.value(),
    {
        match self {
            LowNumber::Byte(b) => *b as u16,
            LowNumber::Word(w) => *w,
        }
    }
}

/// The number `code` stored in the smallest width that holds it exactly.
pub open spec fn smallest_of(code: u16) -> LowNumber {
    if code <= 255 {
        LowNumber::Byte(code as u8)
    } else {
        LowNumber::Word(code)
    }
}

/// The number `code` forced into `size`: a byte keeps only the low eight bits.
pub open spec fn constrained_of(code: u16, size: LowSize) -> LowNumber {
    match size {
        LowSize::Byte => LowNumber::Byte((code % 256) as u8),
        LowSize::Word => LowNumber::Word(code),
    }
}

/// Stores `code` in a byte when it fits, else in a word; never loses data.
pub fn smallest_width(code: u16) -> (r: LowNumber)
    ensures
        r == smallest_of(code),
        r.value() == code as int,
        (r.size() == LowSize::Byte) <==> code <= 255,
{
    if code > u8::MAX as u16 {
        return LowNumber::Word(code);
    }
    LowNumber::Byte(code as u8)
}

/// Stores `code` in the requested width. A byte keeps only the low eight bits,
/// so a code above 255 comes back as a different number; callers that need
/// the exact code compare against `smallest_width` first.
pub fn constrain_to_width(code: u16, size: &LowSize) -> (r: LowNumber)
    ensures
        r == constrained_of(code, *size),
        r.size() == *size,
        *size == LowSize::Byte ==> r.value() == code as int % 256,
        *size == LowSize::Word ==> r.value() == code as int,
{
    match size {
        LowSize::Byte => LowNumber::Byte((code % 256) as u8),
        LowSize::Word => LowNumber::Word(code),
    }
}

} // verus!
