//! Backward liveness analysis over straight-line blocks of a small
//! x86-64-like instruction set.

pub mod liveness;
pub mod operand_set;
pub mod x86;
