//! Code generation: the generic target-level IR and its backends.

pub mod tir;
