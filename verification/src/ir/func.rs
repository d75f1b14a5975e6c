//! The unit of compilation: a function owns its signature, argument values,
//! and the arenas of instructions, blocks and values, plus the side table
//! from instruction to result value.

use crate::ir::block::{Block, BlockData};
use crate::ir::inst::{Inst, InstData};
use crate::ir::types::Type;
use crate::ir::value::{Value, ValueData};
use crate::support::slotmap::{Key, PrimaryMap, SecondaryMap};
use vstd::prelude::*;

verus! {

/// Ordered argument types plus an optional return type; immutable once a
/// function is constructed from it.
pub struct Signature {
    pub args: Vec<Type>,
    pub ret: Option<Type>,
}

/// A mid-level function: every entity reachable from it is owned by it, and
/// no entity of one function is meaningful against another.
pub struct Func {
    insts: PrimaryMap<Inst, InstData>,
    args: Vec<Value>,
    blocks: PrimaryMap<Block, BlockData>,
    values: PrimaryMap<Value, ValueData>,
    inst_results: SecondaryMap<Inst, Value>,
    /// The designated entry block: the first block ever created.
    pub entry: Option<Block>,
    sig: Signature,
    name: String,
}

impl Func {
    /// The stored instructions, indexed by instruction key.
    pub closed spec fn insts_seq(&self) -> Seq<InstData> {
        self.insts@
    }

    /// The stored blocks, indexed by block key.
    pub closed spec fn blocks_seq(&self) -> Seq<BlockData> {
        self.blocks@
    }

    /// The stored values, indexed by value key.
    pub closed spec fn values_seq(&self) -> Seq<ValueData> {
        self.values@
    }

    /// The argument values, in signature order.
    pub closed spec fn args_seq(&self) -> Seq<Value> {
        self.args@
    }

    /// The instruction-to-result side table, keyed by instruction index.
    pub closed spec fn inst_results_map(&self) -> Map<int, Value> {
        self.inst_results@
    }

    /// The signature's argument types.
    pub closed spec fn sig_args(&self) -> Seq<Type> {
        self.sig.args@
    }

    /// The signature's return type.
    pub closed spec fn sig_ret(&self) -> Option<Type> {
        self.sig.ret
    }

    /// The function's name.
    pub closed spec fn name_spec(&self) -> Seq<char> {
        self.name@
    }

    /// The designated entry block, if any.
    pub closed spec fn entry_spec(&self) -> Option<Block> {
        self.entry
    }

    /// The program-ordered instruction keys of block `b`.
    pub open spec fn block_insts(&self, b: int) -> Seq<Inst> {
        self.blocks_seq()[b].insts@
    }

    /// Internal consistency: arenas are append-only, the argument values
    /// were minted first and in order, every instruction key placed in a
    /// block exists, and every recorded result value exists.
    pub closed spec fn wf(&self) -> bool {
        &&& self.values.wf()
        &&& self.insts.wf()
        &&& self.blocks.wf()
        &&& self.values.n_free() == 0
        &&& self.insts.n_free() == 0
        &&& self.blocks.n_free() == 0
        &&& self.args@.len() == self.sig.args@.len()
        &&& self.args@.len() <= self.values@.len()
        &&& forall|i: int| 0 <= i < self.args@.len() ==> (#[trigger] self.args@[i]).key_id() == i
        &&& forall|i: int|
            0 <= i < self.args@.len() ==> (#[trigger] self.values@[i]) == (ValueData::Arg {
                typ: self.sig.args@[i],
                idx: i as u16,
            })
        &&& forall|b: int, j: int|
            0 <= b < self.blocks@.len() && 0 <= j < self.blocks@[b].insts@.len() ==> 0 <= (
            #[trigger] self.blocks@[b].insts@[j]).key_id() < self.insts@.len()
        &&& forall|i: int|
            self.inst_results@.contains_key(i) ==> 0 <= (#[trigger] self.inst_results@[i]).key_id()
                < self.values@.len()
        &&& match self.entry {
            Some(b) => 0 <= b.key_id() < self.blocks@.len(),
            None => true,
        }
    }

    /// How one `add_block` call relates the new function state to the old:
    /// one fresh empty block appended to the block arena, made the entry
    /// block if none existed, everything else untouched.
    pub open spec fn add_block_post(pre: Func, post: Func, blk: Block) -> bool {
        &&& post.wf()
        &&& blk.key_id() == pre.blocks_seq().len()
        &&& post.blocks_seq().len() == pre.blocks_seq().len() + 1
        &&& post.block_insts(blk.key_id()).len() == 0
        &&& forall|b: int|
            0 <= b < pre.blocks_seq().len() ==> post.blocks_seq()[b] == pre.blocks_seq()[b]
        &&& post.entry_spec() == if pre.entry_spec() is None {
            Some(blk)
        } else {
            pre.entry_spec()
        }
        &&& post.insts_seq() == pre.insts_seq()
        &&& post.values_seq() == pre.values_seq()
        &&& post.args_seq() == pre.args_seq()
        &&& post.inst_results_map() == pre.inst_results_map()
        &&& post.sig_args() == pre.sig_args()
        &&& post.sig_ret() == pre.sig_ret()
        &&& post.name_spec() == pre.name_spec()
    }

    /// How appending instruction `data` (with a result value of type
    /// `res_type`) to block `block` relates the new state to the old: the
    /// instruction gets fresh key `k` and is placed at the tail of `block`,
    /// a fresh value `v` of type `res_type` is minted, and the side table
    /// records `v` as `k`'s result.
    pub open spec fn add_inst_post(
        pre: Func,
        post: Func,
        block: Block,
        data: InstData,
        res_type: Type,
        k: Inst,
        v: Value,
    ) -> bool {
        &&& post.wf()
        &&& k.key_id() == pre.insts_seq().len()
        &&& post.insts_seq() == pre.insts_seq().push(data)
        &&& post.blocks_seq().len() == pre.blocks_seq().len()
        &&& post.block_insts(block.key_id()) == pre.block_insts(block.key_id()).push(k)
        &&& forall|b: int|
            0 <= b < pre.blocks_seq().len() && b != block.key_id() ==> post.blocks_seq()[b]
                == pre.blocks_seq()[b]
        &&& v.key_id() == pre.values_seq().len()
        &&& post.values_seq() == pre.values_seq().push(ValueData::Inst { typ: res_type, inst: k })
        &&& post.inst_results_map() == pre.inst_results_map().insert(k.key_id(), v)
        &&& post.args_seq() == pre.args_seq()
        &&& post.entry_spec() == pre.entry_spec()
        &&& post.sig_args() == pre.sig_args()
        &&& post.sig_ret() == pre.sig_ret()
        &&& post.name_spec() == pre.name_spec()
    }

    /// Builds a function over `sig`: one argument value per signature
    /// argument is minted up front, in order, each tagged with its ordinal
    /// and declared type; no block exists yet.
    pub fn new(name: String, sig: Signature) -> (f: Func)
        requires
            sig.args@.len() < u16::MAX,
        ensures
            f.wf(),
            f.sig_args() == sig.args@,
            f.sig_ret() == sig.ret,
            f.name_spec() == name@,
            f.args_seq().len() == sig.args@.len(),
            forall|i: int| 0 <= i < sig.args@.len() ==> (#[trigger] f.args_seq()[i]).key_id() == i,
            f.values_seq().len() == sig.args@.len(),
            forall|i: int|
                0 <= i < sig.args@.len() ==> (#[trigger] f.values_seq()[i]) == (ValueData::Arg {
                    typ: sig.args@[i],
                    idx: i as u16,
                }),
            f.insts_seq().len() == 0,
            f.blocks_seq().len() == 0,
            f.inst_results_map() == Map::<int, Value>::empty(),
            f.entry_spec() is None,
    {
        let mut values: PrimaryMap<Value, ValueData> = PrimaryMap::new();
        let mut args: Vec<Value> = Vec::new();
        let n = sig.args.len();
        let mut i: usize = 0;
        while i < n
            invariant
                n == sig.args@.len(),
                n < u16::MAX,
                0 <= i <= n,
                values.wf(),
                values.n_free() == 0,
                values@.len() == i,
                args@.len() == i,
                forall|j: int| 0 <= j < i ==> (#[trigger] args@[j]).key_id() == j,
                forall|j: int|
                    0 <= j < i ==> (#[trigger] values@[j]) == (ValueData::Arg {
                        typ: sig.args@[j],
                        idx: j as u16,
                    }),
            decreases n - i,
        {
            let t = sig.args[i];
            let v: Value = values.insert(ValueData::Arg { typ: t, idx: i as u16 });
            args.push(v);
            i = i + 1;
        }
        Func {
            name,
            sig,
            args,
            values,
            entry: None,
            insts: PrimaryMap::new(),
            blocks: PrimaryMap::new(),
            inst_results: SecondaryMap::new(),
        }
    }

    /// Appends an instruction that produces no result value to `block`.
    pub(crate) fn add_void_inst(&mut self, block: Block, inst: InstData) -> (k: Inst)
        requires
            old(self).wf(),
            0 <= block.key_id() < old(self).blocks_seq().len(),
            old(self).insts_seq().len() < u32::MAX,
        ensures
            final(self).wf(),
            k.key_id() == old(self).insts_seq().len(),
            final(self).insts_seq() == old(self).insts_seq().push(inst),
            final(self).blocks_seq().len() == old(self).blocks_seq().len(),
            final(self).block_insts(block.key_id()) == old(self).block_insts(
                block.key_id(),
            ).push(k),
            forall|b: int|
                0 <= b < old(self).blocks_seq().len() && b != block.key_id() ==> final(self).blocks_seq()[b] == old(self).blocks_seq()[b],
            final(self).values_seq() == old(self).values_seq(),
            final(self).args_seq() == old(self).args_seq(),
            final(self).inst_results_map() == old(self).inst_results_map(),
            final(self).entry_spec() == old(self).entry_spec(),
            final(self).sig_args() == old(self).sig_args(),
            final(self).sig_ret() == old(self).sig_ret(),
            final(self).name_spec() == old(self).name_spec(),
    {
        let k: Inst = self.insts.insert(inst);
        let mut bd = self.blocks.replace(block, BlockData { insts: Vec::new() });
        bd.insts.push(k);
        self.blocks.set(block, bd);
        k
    }

    /// Appends an instruction to `block` and mints its result value of type
    /// `res_type`, recording the association in the side table.
    pub(crate) fn add_inst(&mut self, block: Block, inst: InstData, res_type: Type) -> (k: Inst)
        requires
            old(self).wf(),
            0 <= block.key_id() < old(self).blocks_seq().len(),
            old(self).insts_seq().len() < u32::MAX,
            old(self).values_seq().len() < u32::MAX,
        ensures
            Func::add_inst_post(
                *old(self),
                *final(self),
                block,
                inst,
                res_type,
                k,
                Value(old(self).values_seq().len() as u32),
            ),
    {
        let k: Inst = self.insts.insert(inst);
        let mut bd = self.blocks.replace(block, BlockData { insts: Vec::new() });
        bd.insts.push(k);
        self.blocks.set(block, bd);
        let value: Value = self.values.insert(ValueData::Inst { typ: res_type, inst: k });
        self.inst_results.insert(k, value);
        k
    }

    /// Creates a block, appends it to the block arena, and makes it the
    /// entry block if none was designated yet.
    pub(crate) fn add_block(&mut self) -> (blk: Block)
        requires
            old(self).wf(),
            old(self).blocks_seq().len() < u16::MAX,
        ensures
            Func::add_block_post(*old(self), *final(self), blk),
    {
        let block: Block = self.blocks.insert(BlockData { insts: Vec::new() });
        if self.entry.is_none() {
            self.entry = Some(block);
        }
        block
    }

    /// The result value recorded for `inst`.
    pub(crate) fn get_inst_result(&self, inst: Inst) -> (v: Value)
        requires
            self.inst_results_map().contains_key(inst.key_id()),
        ensures
            v == self.inst_results_map()[inst.key_id()],
    {
        *self.inst_results.get(inst).unwrap()
    }

    /// The payload of a value. Asking about a value this function never
    /// minted is a caller bug; the contract rules it out.
    pub fn value_data(&self, value: Value) -> (d: &ValueData)
        requires
            0 <= value.key_id() < self.values_seq().len(),
        ensures
            *d == self.values_seq()[value.key_id()],
    {
        self.values.get(value)
    }

    /// The value of the `idx`-th argument; out of range is a caller bug.
    pub fn get_arg(&self, idx: usize) -> (v: Value)
        requires
            idx < self.args_seq().len(),
        ensures
            v == self.args_seq()[idx as int],
    {
        self.args[idx]
    }
}

} // verus!
