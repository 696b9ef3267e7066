//! Instruction model and opcode codec for an extensible processor architecture.
pub mod number;
pub mod operand;
pub mod operation;
