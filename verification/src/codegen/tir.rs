//! The generic target-level IR: container types written once and
//! instantiated per backend through a target-register / target-instruction
//! trait pair. Instructions are created in an arena first and then threaded
//! into blocks; the function's block order is the later emission order.

pub mod pass;
pub mod x64;

use crate::support::slotmap::{Key, PrimaryMap};
use vstd::prelude::*;

verus! {

/// The class of registers a value may be assigned to.
#[derive(Clone, Copy, PartialEq, Eq, Structural, Debug)]
pub enum RegType {
    Int,
    FP,
    Vector,
}

/// A concrete target's physical register kind.
pub trait TargetReg: Sized + Copy {

}

/// A register operand: a concrete physical register, or a numbered virtual
/// register that a later allocation pass replaces. Virtual ids are unique
/// per function and carry no class of their own.
#[derive(Clone, Copy)]
pub enum Reg<T: TargetReg> {
    Fixed(T),
    Virtual(i16),
}

/// A target-independent instruction.
#[derive(Clone, Copy)]
pub enum GenericInstruction {
    BR { block_idx: i16 },
}

/// A concrete target's instruction kind.
pub trait TargetInst: Sized + Copy {

}

/// Either a still-generic instruction or a concrete target instruction.
#[derive(Clone, Copy)]
pub enum Inst<I: TargetInst> {
    Generic(GenericInstruction),
    Target(I),
}

/// The key of a target-level instruction in its function's arena.
#[derive(Clone, Copy, PartialEq, Eq, Structural, Debug)]
pub struct InstId(pub u32);

impl Key for InstId {
    open spec fn key_id(self) -> int {
        self.0 as int
    }

    open spec fn none_id() -> int {
        u32::MAX as int
    }

    proof fn key_id_in_range(self) {
    }

    fn new(v: usize) -> Self {
        InstId(v as u32)
    }

    fn index(&self) -> usize {
        self.0 as usize
    }

    fn none_val() -> Self {
        InstId(u32::MAX)
    }

    fn is_none(self) -> bool {
        self.0 == u32::MAX
    }
}

/// The key of a target-level block in its function's arena.
#[derive(Clone, Copy, PartialEq, Eq, Structural, Debug)]
pub struct BlockId(pub u32);

impl Key for BlockId {
    open spec fn key_id(self) -> int {
        self.0 as int
    }

    open spec fn none_id() -> int {
        u32::MAX as int
    }

    proof fn key_id_in_range(self) {
    }

    fn new(v: usize) -> Self {
        BlockId(v as u32)
    }

    fn index(&self) -> usize {
        self.0 as usize
    }

    fn none_val() -> Self {
        BlockId(u32::MAX)
    }

    fn is_none(self) -> bool {
        self.0 == u32::MAX
    }
}

/// An ordered list of instruction keys: program order within the block. An
/// instruction key may be placed in at most one block; that is the caller's
/// discipline, not enforced here.
pub struct Block {
    pub instructions: Vec<InstId>,
}

impl Block {
    pub fn new() -> (b: Block)
        ensures
            b.instructions@ == Seq::<InstId>::empty(),
    {
        Block { instructions: Vec::new() }
    }

    /// Appends an already-created instruction key at the block's tail.
    pub fn add_instruction(&mut self, inst: InstId)
        ensures
            final(self).instructions@ == old(self).instructions@.push(inst),
    {
        self.instructions.push(inst)
    }
}

/// A target-level function: the instruction and block arenas plus the
/// ordered block sequence, which is the linear emission order.
pub struct Func<I: TargetInst> {
    pub blocks: Vec<BlockId>,
    pub instructions_data: PrimaryMap<InstId, Inst<I>>,
    pub blocks_data: PrimaryMap<BlockId, Block>,
}

impl<I: TargetInst> Func<I> {
    /// Internal consistency: the arenas are append-only, the block order
    /// lists each existing block at most once, and every placed instruction
    /// key exists.
    pub open spec fn wf(&self) -> bool {
        &&& self.instructions_data.wf()
        &&& self.blocks_data.wf()
        &&& self.instructions_data.n_free() == 0
        &&& self.blocks_data.n_free() == 0
        &&& self.blocks@.no_duplicates()
        &&& forall|i: int|
            0 <= i < self.blocks@.len() ==> 0 <= (#[trigger] self.blocks@[i]).key_id()
                < self.blocks_data@.len()
        &&& forall|b: int, j: int|
            0 <= b < self.blocks_data@.len() && 0 <= j < self.blocks_data@[b].instructions@.len()
                ==> 0 <= (#[trigger] self.blocks_data@[b].instructions@[j]).key_id()
                < self.instructions_data@.len()
    }

    pub fn new() -> (f: Self)
        ensures
            f.wf(),
            f.blocks@ == Seq::<BlockId>::empty(),
            f.instructions_data@ == Seq::<Inst<I>>::empty(),
            f.blocks_data@ == Seq::<Block>::empty(),
    {
        Self { blocks: Vec::new(), instructions_data: PrimaryMap::new(), blocks_data: PrimaryMap::new() }
    }

    /// Stores an instruction in the arena without placing it in any block
    /// yet: creation is decoupled from placement.
    pub fn add_instruction(&mut self, inst: Inst<I>) -> (k: InstId)
        requires
            old(self).wf(),
            old(self).instructions_data@.len() < u32::MAX,
        ensures
            final(self).wf(),
            k.key_id() == old(self).instructions_data@.len(),
            final(self).instructions_data@ == old(self).instructions_data@.push(inst),
            final(self).blocks@ == old(self).blocks@,
            final(self).blocks_data@ == old(self).blocks_data@,
    {
        self.instructions_data.insert(inst)
    }

    /// Creates a block and appends its key at the end of the emission
    /// order.
    pub fn add_block(&mut self) -> (k: BlockId)
        requires
            old(self).wf(),
            old(self).blocks_data@.len() < u32::MAX,
        ensures
            final(self).wf(),
            k.key_id() == old(self).blocks_data@.len(),
            final(self).blocks@ == old(self).blocks@.push(k),
            final(self).blocks_data@.len() == old(self).blocks_data@.len() + 1,
            final(self).blocks_data@[k.key_id()].instructions@ == Seq::<InstId>::empty(),
            forall|b: int|
                0 <= b < old(self).blocks_data@.len() ==> final(self).blocks_data@[b] == old(self).blocks_data@[b],
            final(self).instructions_data@ == old(self).instructions_data@,
    {
        let key: BlockId = self.blocks_data.insert(Block::new());
        self.blocks.push(key);
        key
    }

    /// Appends an already-created instruction key at the tail of an
    /// existing block.
    pub fn add_block_instruction(&mut self, block: BlockId, inst: InstId)
        requires
            old(self).wf(),
            0 <= block.key_id() < old(self).blocks_data@.len(),
            0 <= inst.key_id() < old(self).instructions_data@.len(),
        ensures
            final(self).wf(),
            final(self).blocks@ == old(self).blocks@,
            final(self).instructions_data@ == old(self).instructions_data@,
            final(self).blocks_data@.len() == old(self).blocks_data@.len(),
            final(self).blocks_data@[block.key_id()].instructions@ == old(self).blocks_data@[block.key_id()].instructions@.push(inst),
            forall|b: int|
                0 <= b < old(self).blocks_data@.len() && b != block.key_id() ==> final(self).blocks_data@[b] == old(self).blocks_data@[b],
    {
        let mut bd = self.blocks_data.replace(block, Block::new());
        bd.add_instruction(inst);
        self.blocks_data.set(block, bd);
    }
}

} // verus!
