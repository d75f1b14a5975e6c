//! Basic blocks of the mid-level representation.

use crate::ir::inst::Inst;
use crate::support::slotmap::Key;
use vstd::prelude::*;

verus! {

/// The key of a block in its function's block arena.
#[derive(Clone, Copy, PartialEq, Eq, Structural, Debug)]
pub struct Block(pub u16);

impl Key for Block {
    open spec fn key_id(self) -> int {
        self.0 as int
    }

    open spec fn none_id() -> int {
        u16::MAX as int
    }

    proof fn key_id_in_range(self) {
    }

    fn new(v: usize) -> Self {
        Block(v as u16)
    }

    fn index(&self) -> usize {
        self.0 as usize
    }

    fn none_val() -> Self {
        Block(u16::MAX)
    }

    fn is_none(self) -> bool {
        self.0 == u16::MAX
    }
}

/// An ordered sequence of instruction keys: insertion order is program
/// order within the block.
pub struct BlockData {
    pub insts: Vec<Inst>,
}

impl Default for BlockData {
    fn default() -> (d: Self)
        ensures
            d.insts@ == Seq::<Inst>::empty(),
    {
        BlockData { insts: Vec::new() }
    }
}

} // verus!
