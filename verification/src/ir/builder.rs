//! A cursor-based builder that appends well-typed instructions at the tail
//! of a chosen insertion block.

use crate::ir::block::Block;
use crate::ir::func::Func;
use crate::ir::inst::{binary_inst, Binary, BinaryOpcode, Inst, InstData};
use crate::ir::types::Type;
use crate::ir::value::Value;
use crate::support::slotmap::Key;
use vstd::prelude::*;

verus! {

/// Owns the function under construction together with an optional current
/// insertion block; emission is append-only at that block's tail.
pub struct Builder {
    func: Func,
    insert_point: Option<Block>,
}

impl Builder {
    /// The function under construction.
    pub closed spec fn func_spec(&self) -> Func {
        self.func
    }

    /// The current insertion block, if one was chosen.
    pub closed spec fn insert_point_spec(&self) -> Option<Block> {
        self.insert_point
    }

    /// The operand requirements of a binary emission: a chosen and existing
    /// insertion block, operand values this function minted, both of the
    /// same semantic type, and room in the arenas for one more entity.
    pub open spec fn can_emit_binary(&self, lhs: Value, rhs: Value) -> bool {
        &&& self.func_spec().wf()
        &&& self.insert_point_spec() matches Some(b) && 0 <= b.key_id()
            < self.func_spec().blocks_seq().len()
        &&& 0 <= lhs.key_id() < self.func_spec().values_seq().len()
        &&& 0 <= rhs.key_id() < self.func_spec().values_seq().len()
        &&& self.func_spec().values_seq()[lhs.key_id()].typ_spec()
            == self.func_spec().values_seq()[rhs.key_id()].typ_spec()
        &&& self.func_spec().insts_seq().len() < u32::MAX
        &&& self.func_spec().values_seq().len() < u32::MAX
    }

    /// How one binary emission relates the new builder state to the old:
    /// the function gains exactly one instruction (`op` over `lhs`, `rhs`)
    /// at the tail of the insertion block, and `v` is its freshly minted
    /// result value, of the common operand type.
    pub open spec fn emitted_binary(
        pre: Builder,
        post: Builder,
        op: BinaryOpcode,
        lhs: Value,
        rhs: Value,
        v: Value,
    ) -> bool {
        &&& Func::add_inst_post(
            pre.func_spec(),
            post.func_spec(),
            pre.insert_point_spec()->Some_0,
            post.func_spec().insts_seq().last(),
            pre.func_spec().values_seq()[lhs.key_id()].typ_spec(),
            Inst(pre.func_spec().insts_seq().len() as u32),
            v,
        )
        &&& binary_inst(op, lhs, rhs, post.func_spec().insts_seq().last())
        &&& post.func_spec().values_seq()[v.key_id()].typ_spec()
            == pre.func_spec().values_seq()[lhs.key_id()].typ_spec()
        &&& post.insert_point_spec() == pre.insert_point_spec()
    }

    pub fn new(func: Func) -> (b: Builder)
        ensures
            b.func_spec() == func,
            b.insert_point_spec() is None,
    {
        Builder { func, insert_point: None }
    }

    /// Hands the finished function back.
    pub fn finish(self) -> (f: Func)
        ensures
            f == self.func_spec(),
    {
        self.func
    }

    /// Creates a block in the function under construction; the first one
    /// created becomes the entry block.
    pub fn add_block(&mut self) -> (blk: Block)
        requires
            old(self).func_spec().wf(),
            old(self).func_spec().blocks_seq().len() < u16::MAX,
        ensures
            Func::add_block_post(old(self).func_spec(), final(self).func_spec(), blk),
            final(self).insert_point_spec() == old(self).insert_point_spec(),
    {
        self.func.add_block()
    }

    /// Switches the target block for subsequent emission.
    pub fn set_insert_point(&mut self, block: Block)
        ensures
            final(self).func_spec() == old(self).func_spec(),
            final(self).insert_point_spec() == Some(block),
    {
        self.insert_point = Some(block);
    }

    fn emit_binary_inst(&mut self, opcode: BinaryOpcode, res_type: Type, args: [Value; 2]) -> (v:
        Value)
        requires
            old(self).func_spec().wf(),
            old(self).insert_point_spec() matches Some(b) && 0 <= b.key_id() < old(self).func_spec().blocks_seq().len(),
            old(self).func_spec().insts_seq().len() < u32::MAX,
            old(self).func_spec().values_seq().len() < u32::MAX,
        ensures
            Func::add_inst_post(
                old(self).func_spec(),
                final(self).func_spec(),
                old(self).insert_point_spec()->Some_0,
                final(self).func_spec().insts_seq().last(),
                res_type,
                Inst(old(self).func_spec().insts_seq().len() as u32),
                v,
            ),
            binary_inst(opcode, args@[0], args@[1], final(self).func_spec().insts_seq().last()),
            final(self).insert_point_spec() == old(self).insert_point_spec(),
    {
        proof {
            assert(args@ =~= seq![args@[0], args@[1]]);
        }
        let block = self.insert_point.unwrap();
        let inst = self.func.add_inst(block, InstData::Binary(Binary { opcode, args }), res_type);
        self.func.get_inst_result(inst)
    }

    fn emit_binary_inst_same_types(&mut self, opcode: BinaryOpcode, args: [Value; 2]) -> (v: Value)
        requires
            old(self).can_emit_binary(args[0], args[1]),
        ensures
            Builder::emitted_binary(*old(self), *final(self), opcode, args@[0], args@[1], v),
    {
        let lhs_type = self.func.value_data(args[0]).get_type();
        self.emit_binary_inst(opcode, lhs_type, args)
    }

    /// The value of the `idx`-th function argument; out of range is a
    /// caller bug.
    pub fn get_arg(&self, idx: usize) -> (v: Value)
        requires
            idx < self.func_spec().args_seq().len(),
        ensures
            v == self.func_spec().args_seq()[idx as int],
    {
        self.func.get_arg(idx)
    }

    /// Emits a signed addition of two same-typed values into the insertion
    /// block and returns its result value, of that same type.
    pub fn add(&mut self, lhs: Value, rhs: Value) -> (v: Value)
        requires
            old(self).can_emit_binary(lhs, rhs),
        ensures
            Builder::emitted_binary(*old(self), *final(self), BinaryOpcode::Add, lhs, rhs, v),
    {
        self.emit_binary_inst_same_types(BinaryOpcode::Add, [lhs, rhs])
    }

    /// Emits an unsigned addition of two same-typed values into the
    /// insertion block and returns its result value, of that same type.
    pub fn uadd(&mut self, lhs: Value, rhs: Value) -> (v: Value)
        requires
            old(self).can_emit_binary(lhs, rhs),
        ensures
            Builder::emitted_binary(*old(self), *final(self), BinaryOpcode::UAdd, lhs, rhs, v),
    {
        self.emit_binary_inst_same_types(BinaryOpcode::UAdd, [lhs, rhs])
    }
}

} // verus!
