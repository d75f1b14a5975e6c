//! Instructions of the mid-level representation.

use crate::ir::value::Value;
use crate::support::slotmap::Key;
use vstd::prelude::*;

verus! {

/// The key of an instruction in its function's instruction arena.
#[derive(Clone, Copy, PartialEq, Eq, Structural, Debug)]
pub struct Inst(pub u32);

impl Key for Inst {
    open spec fn key_id(self) -> int {
        self.0 as int
    }

    open spec fn none_id() -> int {
        u32::MAX as int
    }

    proof fn key_id_in_range(self) {
    }

    fn new(v: usize) -> Self {
        Inst(v as u32)
    }

    fn index(&self) -> usize {
        self.0 as usize
    }

    fn none_val() -> Self {
        Inst(u32::MAX)
    }

    fn is_none(self) -> bool {
        self.0 == u32::MAX
    }
}

/// The opcode of a binary arithmetic instruction.
#[derive(Clone, Copy, PartialEq, Eq, Structural, Debug)]
pub enum BinaryOpcode {
    Add,
    UAdd,
    Sub,
    Mul,
    Div,
}

/// A binary arithmetic instruction over two same-typed operand values.
pub struct Binary {
    pub opcode: BinaryOpcode,
    pub args: [Value; 2],
}

/// The payload of a mid-level instruction.
pub enum InstData {
    Binary(Binary),
}

/// Whether `data` is the binary instruction `op` over exactly the operands
/// `lhs` and `rhs`, in that order.
pub open spec fn binary_inst(op: BinaryOpcode, lhs: Value, rhs: Value, data: InstData) -> bool {
    match data {
        InstData::Binary(b) => b.opcode == op && b.args@ == seq![lhs, rhs],
    }
}

} // verus!
