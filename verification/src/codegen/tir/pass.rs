//! Passes over the target-level IR.

pub mod regalloc;
