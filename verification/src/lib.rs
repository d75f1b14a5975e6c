//! Core of a small compiler back end: arena-based entity storage with opaque
//! keys, a growable bit set for dataflow bookkeeping, a typed mid-level IR
//! with an instruction builder, a generic target-level IR, and an x64 backend
//! that lowers a target-level function to calls against an external
//! machine-code assembler.

pub mod codegen;
pub mod ir;
pub mod support;
