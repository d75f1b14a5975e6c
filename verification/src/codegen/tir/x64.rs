//! The x64 backend's register set and instruction set.

pub mod emit_mc;

use crate::codegen::tir::{BlockId, TargetInst, TargetReg};
use vstd::prelude::*;

verus! {

/// The named general-purpose registers plus the flags pseudo-register.
/// `EFLAGS` is a valid storage-location name, but it must never be handed
/// to the encoder as a `Fixed` operand: only the compare/branch pair
/// implicitly defines and consumes it.
#[derive(Clone, Copy, PartialEq, Eq, Structural, Debug)]
pub enum X64Reg {
    AX,
    BX,
    CX,
    DX,
    SI,
    DI,
    BP,
    SP,
    R8,
    R9,
    R10,
    R11,
    R12,
    R13,
    R14,
    R15,
    EFLAGS,
}

impl TargetReg for X64Reg {

}

/// A register operand of the x64 backend.
pub type Reg = crate::codegen::tir::Reg<X64Reg>;

/// A memory operand: `[base + index*scale] + disp`. The base register is
/// mandatory; the index and scale contribute only when present.
#[derive(Clone, Copy)]
pub struct Mem {
    pub reg: Reg,
    pub index: Option<Reg>,
    pub scale: u8,
    pub disp: i32,
}

/// The target of a conditional branch: a block key, never a raw offset.
#[derive(Clone, Copy)]
pub enum JumpTarget {
    BB(BlockId),
}

/// The x64 instruction set of this backend.
#[derive(Clone, Copy)]
pub enum X64Inst {
    MOV64rr { src: Reg, dst: Reg },
    MOV64rm { src: Reg, dst: Mem },
    CMP64rr { lhs: Reg, rhs: Reg },
    JLE { target: JumpTarget },
    JE { target: JumpTarget },
    JL { target: JumpTarget },
}

impl TargetInst for X64Inst {

}

} // verus!
