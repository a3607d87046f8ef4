//! Instruction representation for a compiler IR: opcodes and their formats, per-opcode
//! type constraints, value-type sets, pooled value lists, and structural queries on
//! instructions.

pub mod bitset;
pub mod types;
pub mod entities;
pub mod immediates;
pub mod value_list;
pub mod constraints;
pub mod opcodes;
pub mod name_index;
pub mod instructions;
pub mod laws;
