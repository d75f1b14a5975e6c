//! Lowering an x64 target-level function to machine code through the
//! external assembler.
//!
//! Emission follows a two-pass protocol: the first pass requests one label
//! per block, in block order, and records the block-to-label association;
//! only then does the second pass walk the blocks again, bind each block's
//! label, and emit its instructions, so a branch can resolve a forward
//! target through the already-complete table. The call sequence made
//! against the assembler is specified exactly by [`emit_ops`]; the
//! assembler itself is opaque, and any encoding error it reports is
//! propagated unchanged.

use crate::codegen::tir::x64::{JumpTarget, Mem, X64Inst, X64Reg};
use crate::codegen::tir::{BlockId, Func, Inst, InstId, Reg};
use crate::support::slotmap::{Key, SecondaryMap};
use iced_x86::code_asm::{
    qword_ptr, r10, r11, r12, r13, r14, r15, r8, r9, rax, rbp, rbx, rcx, rdi, rdx, rsi, rsp,
    AsmMemoryOperand, AsmRegister64, CodeAssembler, CodeLabel,
};
use iced_x86::IcedError;
use vstd::pervasive::unreached;
use vstd::prelude::*;

verus! {

/// The encoder and instruction stream of the external assembler; opaque
/// here, touched only through the trusted calls below.
#[verifier::external_type_specification]
#[verifier::external_body]
pub struct ExCodeAssembler(CodeAssembler);

/// A label minted by the external assembler; opaque, carried from the
/// first pass to the second.
#[verifier::external_type_specification]
#[verifier::external_body]
pub struct ExCodeLabel(CodeLabel);

/// A 64-bit register in the external assembler's vocabulary.
#[verifier::external_type_specification]
#[verifier::external_body]
pub struct ExAsmRegister64(AsmRegister64);

/// A memory operand in the external assembler's vocabulary.
#[verifier::external_type_specification]
#[verifier::external_body]
pub struct ExAsmMemoryOperand(AsmMemoryOperand);

/// The external assembler's encoding-level error, propagated unchanged.
#[verifier::external_type_specification]
#[verifier::external_body]
pub struct ExIcedError(IcedError);

/// The physical register inside a `Fixed` operand.
pub open spec fn fixed_reg(r: Reg<X64Reg>) -> X64Reg {
    match r {
        Reg::Fixed(t) => t,
        Reg::Virtual(_) => arbitrary(),
    }
}

/// An operand register the encoder accepts: allocated to a concrete
/// register, and not the flags pseudo-register.
pub open spec fn reg_ok(r: Reg<X64Reg>) -> bool {
    match r {
        Reg::Fixed(t) => t != X64Reg::EFLAGS,
        Reg::Virtual(_) => false,
    }
}

/// A memory operand the encoder accepts.
pub open spec fn mem_ok(m: Mem) -> bool {
    &&& reg_ok(m.reg)
    &&& match m.index {
        Some(r) => reg_ok(r),
        None => true,
    }
}

/// A branch target that emission can resolve: a block present in the
/// function's own block order.
pub open spec fn jump_ok(f: &Func<X64Inst>, t: JumpTarget) -> bool {
    match t {
        JumpTarget::BB(b) => f.blocks@.contains(b),
    }
}

/// An instruction this stage accepts: a concrete target instruction (a
/// still-generic one reaching emission is an internal-consistency bug)
/// whose register operands are fixed non-flags registers and whose branch
/// target, if any, is resolvable.
pub open spec fn inst_ok(f: &Func<X64Inst>, d: Inst<X64Inst>) -> bool {
    match d {
        Inst::Generic(_) => false,
        Inst::Target(x) => match x {
            X64Inst::MOV64rr { src, dst } => reg_ok(src) && reg_ok(dst),
            X64Inst::MOV64rm { src, dst } => reg_ok(src) && mem_ok(dst),
            X64Inst::CMP64rr { lhs, rhs } => reg_ok(lhs) && reg_ok(rhs),
            X64Inst::JLE { target } => jump_ok(f, target),
            X64Inst::JE { target } => jump_ok(f, target),
            X64Inst::JL { target } => jump_ok(f, target),
        },
    }
}

/// The instruction keys placed in the `i`-th block of the block order.
pub open spec fn insts_of_block(f: &Func<X64Inst>, i: int) -> Seq<InstId> {
    f.blocks_data@[f.blocks@[i].key_id()].instructions@
}

/// Every instruction placed in an emitted block is one this stage accepts.
pub open spec fn placed_ok(f: &Func<X64Inst>) -> bool {
    forall|i: int, j: int|
        0 <= i < f.blocks@.len() && 0 <= j < insts_of_block(f, i).len() ==> inst_ok(
            f,
            f.instructions_data@[(#[trigger] insts_of_block(f, i)[j]).key_id()],
        )
}

/// What emission demands of its input: a consistent function whose placed
/// instructions are all emittable.
pub open spec fn emit_wf(f: &Func<X64Inst>) -> bool {
    &&& f.wf()
    &&& placed_ok(f)
}

/// The index term of a memory operand as handed to the assembler.
#[derive(Clone, Copy, PartialEq, Eq, Debug)]
pub struct IndexTerm {
    pub reg: X64Reg,
    pub scale: u8,
}

/// The terms of a memory operand as handed to the assembler: the index
/// term is omitted entirely when the operand has none, and a zero
/// displacement is elided rather than added.
#[derive(Clone, Copy, PartialEq, Eq, Debug)]
pub struct MemArgs {
    pub base: X64Reg,
    pub index: Option<IndexTerm>,
    pub disp: Option<i32>,
}

/// One semantic call against the external assembler. A label ordinal
/// counts the labels the first pass creates, in block order: the label of
/// the `i`-th block of the block order has ordinal `i`.
#[derive(Clone, Copy, PartialEq, Eq, Debug)]
pub enum AsmOp {
    /// Request one fresh label.
    CreateLabel,
    /// Bind the label of the given ordinal at the current position.
    SetLabel { label: usize },
    /// Move register to register.
    MovRR { dst: X64Reg, src: X64Reg },
    /// Move register to memory.
    MovRM { src: X64Reg, dst: MemArgs },
    /// Compare two registers, defining the implicit flags state.
    CmpRR { lhs: X64Reg, rhs: X64Reg },
    /// Jump if less or equal, to the label of the given ordinal.
    Jle { label: usize },
    /// Jump if equal, to the label of the given ordinal.
    Je { label: usize },
    /// Jump if less, to the label of the given ordinal.
    Jl { label: usize },
}

/// The memory-operand terms for `m`: the base always, the index term only
/// when present, and the displacement only when non-zero.
pub open spec fn lowered_mem(m: Mem) -> MemArgs {
    MemArgs {
        base: fixed_reg(m.reg),
        index: match m.index {
            Some(r) => Some(IndexTerm { reg: fixed_reg(r), scale: m.scale }),
            None => None,
        },
        disp: if m.disp == 0 {
            None
        } else {
            Some(m.disp)
        },
    }
}

/// The assembler call for one placed instruction; a branch resolves its
/// block target to that block's position in the block order.
pub open spec fn lowered_inst(f: &Func<X64Inst>, d: Inst<X64Inst>) -> AsmOp {
    match d {
        Inst::Generic(_) => arbitrary(),
        Inst::Target(x) => match x {
            X64Inst::MOV64rr { src, dst } => AsmOp::MovRR {
                dst: fixed_reg(dst),
                src: fixed_reg(src),
            },
            X64Inst::MOV64rm { src, dst } => AsmOp::MovRM {
                src: fixed_reg(src),
                dst: lowered_mem(dst),
            },
            X64Inst::CMP64rr { lhs, rhs } => AsmOp::CmpRR {
                lhs: fixed_reg(lhs),
                rhs: fixed_reg(rhs),
            },
            X64Inst::JLE { target: JumpTarget::BB(b) } => AsmOp::Jle {
                label: f.blocks@.index_of(b) as usize,
            },
            X64Inst::JE { target: JumpTarget::BB(b) } => AsmOp::Je {
                label: f.blocks@.index_of(b) as usize,
            },
            X64Inst::JL { target: JumpTarget::BB(b) } => AsmOp::Jl {
                label: f.blocks@.index_of(b) as usize,
            },
        },
    }
}

/// The calls for the instructions `insts`, in program order.
pub open spec fn block_ops(f: &Func<X64Inst>, insts: Seq<InstId>) -> Seq<AsmOp>
    decreases insts.len(),
{
    if insts.len() == 0 {
        Seq::empty()
    } else {
        block_ops(f, insts.drop_last()).push(
            lowered_inst(f, f.instructions_data@[insts.last().key_id()]),
        )
    }
}

/// The second-pass calls for the first `k` blocks of the block order: per
/// block its label binding, then its lowered instructions.
pub open spec fn body_ops(f: &Func<X64Inst>, k: int) -> Seq<AsmOp>
    decreases k,
{
    if k <= 0 {
        Seq::empty()
    } else {
        body_ops(f, k - 1) + seq![AsmOp::SetLabel { label: (k - 1) as usize }] + block_ops(
            f,
            insts_of_block(f, k - 1),
        )
    }
}

/// The exact call sequence emission makes for `f`: one fresh-label request
/// per block first, then, for every block in order, its label binding
/// followed by its lowered instructions.
pub open spec fn emit_ops(f: &Func<X64Inst>) -> Seq<AsmOp> {
    Seq::new(f.blocks@.len(), |i: int| AsmOp::CreateLabel) + body_ops(f, f.blocks@.len() as int)
}

/// A memory-operand term set the encoder accepts.
pub open spec fn mem_args_ok(m: MemArgs) -> bool {
    &&& m.base != X64Reg::EFLAGS
    &&& match m.index {
        Some(t) => t.reg != X64Reg::EFLAGS,
        None => true,
    }
}

/// Whether one emitted call is well-formed for a function of `n` blocks:
/// every label ordinal it uses names one of the `n` labels of the first
/// pass, and no register handed to the encoder is the flags
/// pseudo-register.
pub open spec fn op_ok(n: int, op: AsmOp) -> bool {
    match op {
        AsmOp::CreateLabel => true,
        AsmOp::SetLabel { label } => 0 <= label < n,
        AsmOp::MovRR { dst, src } => dst != X64Reg::EFLAGS && src != X64Reg::EFLAGS,
        AsmOp::MovRM { src, dst } => src != X64Reg::EFLAGS && mem_args_ok(dst),
        AsmOp::CmpRR { lhs, rhs } => lhs != X64Reg::EFLAGS && rhs != X64Reg::EFLAGS,
        AsmOp::Jle { label } => 0 <= label < n,
        AsmOp::Je { label } => 0 <= label < n,
        AsmOp::Jl { label } => 0 <= label < n,
    }
}

proof fn lemma_index_of_found(s: Seq<BlockId>, b: BlockId)
    requires
        s.contains(b),
    ensures
        0 <= s.index_of(b) < s.len(),
        s[s.index_of(b)] == b,
{
    assert(exists|i: int| 0 <= i < s.len() && s[i] == b);
}

proof fn lemma_index_of_unique(s: Seq<BlockId>, b: BlockId, j: int)
    requires
        s.no_duplicates(),
        0 <= j < s.len(),
        s[j] == b,
    ensures
        s.index_of(b) == j,
{
    assert(s.contains(b));
    lemma_index_of_found(s, b);
    let i = s.index_of(b);
    if i != j {
        assert(s[i] != s[j]);
    }
}

proof fn lemma_block_ops_len(f: &Func<X64Inst>, insts: Seq<InstId>)
    ensures
        block_ops(f, insts).len() == insts.len(),
    decreases insts.len(),
{
    if insts.len() != 0 {
        lemma_block_ops_len(f, insts.drop_last());
    }
}

proof fn lemma_block_ops_index(f: &Func<X64Inst>, insts: Seq<InstId>, j: int)
    requires
        0 <= j < insts.len(),
    ensures
        block_ops(f, insts).len() == insts.len(),
        block_ops(f, insts)[j] == lowered_inst(f, f.instructions_data@[insts[j].key_id()]),
    decreases insts.len(),
{
    lemma_block_ops_len(f, insts);
    if j < insts.len() - 1 {
        lemma_block_ops_index(f, insts.drop_last(), j);
    }
}

proof fn lemma_lowered_inst_ok(f: &Func<X64Inst>, d: Inst<X64Inst>)
    requires
        emit_wf(f),
        inst_ok(f, d),
    ensures
        op_ok(f.blocks@.len() as int, lowered_inst(f, d)),
        !(lowered_inst(f, d) is CreateLabel),
        !(lowered_inst(f, d) is SetLabel),
{
    match d {
        Inst::Generic(_) => {
        },
        Inst::Target(x) => match x {
            X64Inst::JLE { target: JumpTarget::BB(b) } => {
                lemma_index_of_found(f.blocks@, b);
            },
            X64Inst::JE { target: JumpTarget::BB(b) } => {
                lemma_index_of_found(f.blocks@, b);
            },
            X64Inst::JL { target: JumpTarget::BB(b) } => {
                lemma_index_of_found(f.blocks@, b);
            },
            _ => {
            },
        },
    }
}

proof fn lemma_body_ops_ok(f: &Func<X64Inst>, k: int)
    requires
        emit_wf(f),
        0 <= k <= f.blocks@.len(),
    ensures
        forall|j: int|
            0 <= j < body_ops(f, k).len() ==> op_ok(
                f.blocks@.len() as int,
                #[trigger] body_ops(f, k)[j],
            ) && !(body_ops(f, k)[j] is CreateLabel),
    decreases k,
{
    if k > 0 {
        lemma_body_ops_ok(f, k - 1);
        let prev = body_ops(f, k - 1);
        let lab = seq![AsmOp::SetLabel { label: (k - 1) as usize }];
        let blk = block_ops(f, insts_of_block(f, k - 1));
        lemma_block_ops_len(f, insts_of_block(f, k - 1));
        assert forall|j: int| 0 <= j < body_ops(f, k).len() implies op_ok(
            f.blocks@.len() as int,
            #[trigger] body_ops(f, k)[j],
        ) && !(body_ops(f, k)[j] is CreateLabel) by {
            if j < prev.len() {
                assert(body_ops(f, k)[j] == prev[j]);
            } else if j == prev.len() {
                assert(body_ops(f, k)[j] == lab[0]);
            } else {
                let jj = j - prev.len() - 1;
                assert(body_ops(f, k)[j] == blk[jj]);
                lemma_block_ops_index(f, insts_of_block(f, k - 1), jj);
                assert(inst_ok(
                    f,
                    f.instructions_data@[insts_of_block(f, k - 1)[jj].key_id()],
                ));
                lemma_lowered_inst_ok(
                    f,
                    f.instructions_data@[insts_of_block(f, k - 1)[jj].key_id()],
                );
            }
        }
    }
}

/// Resolving a label the first pass did not create is impossible by
/// construction: the call sequence for a well-formed function opens with
/// one label request per block, no later call requests a label, and every
/// label ordinal a later call uses lies below the block count, so it names
/// a label that already exists when the call is made.
pub proof fn lemma_emit_ops_resolve(f: &Func<X64Inst>)
    requires
        emit_wf(f),
    ensures
        emit_ops(f).len() >= f.blocks@.len(),
        forall|i: int| 0 <= i < f.blocks@.len() ==> (#[trigger] emit_ops(f)[i]) is CreateLabel,
        forall|i: int|
            f.blocks@.len() <= i < emit_ops(f).len() ==> op_ok(
                f.blocks@.len() as int,
                #[trigger] emit_ops(f)[i],
            ) && !(emit_ops(f)[i] is CreateLabel),
{
    let n = f.blocks@.len() as int;
    lemma_body_ops_ok(f, n);
    assert forall|i: int| n <= i < emit_ops(f).len() implies op_ok(
        n,
        #[trigger] emit_ops(f)[i],
    ) && !(emit_ops(f)[i] is CreateLabel) by {
        assert(emit_ops(f)[i] == body_ops(f, n)[i - n]);
    }
}

/// The first pass's association is complete: every block of the block
/// order maps to its own position.
spec fn table_complete(f: &Func<X64Inst>, t: &SecondaryMap<BlockId, usize>) -> bool {
    forall|j: int|
        0 <= j < f.blocks@.len() ==> t@.contains_key((#[trigger] f.blocks@[j]).key_id())
            && t@[f.blocks@[j].key_id()] == j
}

/// Extracts the physical register of a fixed operand.
fn fixed_operand(r: Reg<X64Reg>) -> (t: X64Reg)
    requires
        reg_ok(r),
    ensures
        t == fixed_reg(r),
        t != X64Reg::EFLAGS,
{
    match r {
        Reg::Fixed(t) => t,
        Reg::Virtual(_) => unreached(),
    }
}

/// Lowers one memory operand to the terms handed to the assembler,
/// omitting an absent index term and eliding a zero displacement.
fn lower_mem(m: &Mem) -> (a: MemArgs)
    requires
        mem_ok(*m),
    ensures
        a == lowered_mem(*m),
{
    let base = fixed_operand(m.reg);
    let index = match m.index {
        Some(r) => Some(IndexTerm { reg: fixed_operand(r), scale: m.scale }),
        None => None,
    };
    let disp = if m.disp != 0 {
        Some(m.disp)
    } else {
        None
    };
    MemArgs { base, index, disp }
}

/// Lowers one placed instruction, resolving a branch target through the
/// complete first-pass table.
fn lower_inst(
    f: &Func<X64Inst>,
    labels: &SecondaryMap<BlockId, usize>,
    d: Inst<X64Inst>,
) -> (op: AsmOp)
    requires
        emit_wf(f),
        table_complete(f, labels),
        inst_ok(f, d),
    ensures
        op == lowered_inst(f, d),
{
    match d {
        Inst::Generic(_) => unreached(),
        Inst::Target(x) => match x {
            X64Inst::MOV64rr { src, dst } => AsmOp::MovRR {
                dst: fixed_operand(dst),
                src: fixed_operand(src),
            },
            X64Inst::MOV64rm { src, dst } => AsmOp::MovRM {
                src: fixed_operand(src),
                dst: lower_mem(&dst),
            },
            X64Inst::CMP64rr { lhs, rhs } => AsmOp::CmpRR {
                lhs: fixed_operand(lhs),
                rhs: fixed_operand(rhs),
            },
            X64Inst::JLE { target: JumpTarget::BB(b) } => AsmOp::Jle {
                label: lookup_label(f, labels, b),
            },
            X64Inst::JE { target: JumpTarget::BB(b) } => AsmOp::Je {
                label: lookup_label(f, labels, b),
            },
            X64Inst::JL { target: JumpTarget::BB(b) } => AsmOp::Jl {
                label: lookup_label(f, labels, b),
            },
        },
    }
}

/// Resolves a branch target block to its label ordinal through the
/// first-pass table; the table is complete, so the lookup cannot fail.
fn lookup_label(f: &Func<X64Inst>, labels: &SecondaryMap<BlockId, usize>, b: BlockId) -> (ix:
    usize)
    requires
        emit_wf(f),
        table_complete(f, labels),
        f.blocks@.contains(b),
    ensures
        ix == f.blocks@.index_of(b) as usize,
        0 <= ix < f.blocks@.len(),
{
    proof {
        let j = choose|j: int| 0 <= j < f.blocks@.len() && f.blocks@[j] == b;
        lemma_index_of_unique(f.blocks@, b, j);
    }
    *labels.get(b).unwrap()
}

/// Computes the assembler-call sequence for `f`. The first pass records
/// every block's label ordinal before any instruction is lowered; the
/// second pass walks the blocks in order, emitting each block's label
/// binding and lowered instructions.
pub fn lower_func(f: &Func<X64Inst>) -> (ops: Vec<AsmOp>)
    requires
        emit_wf(f),
    ensures
        ops@ == emit_ops(f),
{
    let mut ops: Vec<AsmOp> = Vec::new();
    let mut labels: SecondaryMap<BlockId, usize> = SecondaryMap::new();
    let n = f.blocks.len();
    let n_blocks_data = f.blocks_data.len();

    let mut i: usize = 0;
    while i < n
        invariant
            emit_wf(f),
            n == f.blocks@.len(),
            n_blocks_data == f.blocks_data@.len(),
            0 <= i <= n,
            ops@ =~= Seq::new(i as nat, |j: int| AsmOp::CreateLabel),
            forall|j: int|
                0 <= j < i ==> labels@.contains_key((#[trigger] f.blocks@[j]).key_id())
                    && labels@[f.blocks@[j].key_id()] == j,
        decreases n - i,
    {
        let b = f.blocks[i];
        labels.insert(b, i);
        ops.push(AsmOp::CreateLabel);
        proof {
            assert(ops@ =~= Seq::new((i + 1) as nat, |j: int| AsmOp::CreateLabel));
        }
        i = i + 1;
    }
    let ghost created = Seq::new(n as nat, |j: int| AsmOp::CreateLabel);

    let mut bi: usize = 0;
    while bi < n
        invariant
            emit_wf(f),
            n == f.blocks@.len(),
            0 <= bi <= n,
            table_complete(f, &labels),
            created == Seq::new(n as nat, |j: int| AsmOp::CreateLabel),
            ops@ == created + body_ops(f, bi as int),
        decreases n - bi,
    {
        let b = f.blocks[bi];
        let label_ix = *labels.get(b).unwrap();
        ops.push(AsmOp::SetLabel { label: label_ix });
        let bd = f.blocks_data.get(b);
        let m = bd.instructions.len();
        proof {
            assert(bd.instructions@ == insts_of_block(f, bi as int));
            assert(ops@ =~= created + body_ops(f, bi as int) + seq![
                AsmOp::SetLabel { label: bi as usize },
            ] + block_ops(f, bd.instructions@.take(0)));
        }
        let mut j: usize = 0;
        while j < m
            invariant
                emit_wf(f),
                n == f.blocks@.len(),
                0 <= bi < n,
                0 <= j <= m,
                table_complete(f, &labels),
                b == f.blocks@[bi as int],
                *bd == f.blocks_data@[b.key_id()],
                m == bd.instructions@.len(),
                created == Seq::new(n as nat, |jj: int| AsmOp::CreateLabel),
                ops@ == created + body_ops(f, bi as int) + seq![
                    AsmOp::SetLabel { label: bi as usize },
                ] + block_ops(f, bd.instructions@.take(j as int)),
            decreases m - j,
        {
            let id = bd.instructions[j];
            proof {
                assert(bd.instructions@ == insts_of_block(f, bi as int));
                assert(inst_ok(
                    f,
                    f.instructions_data@[insts_of_block(f, bi as int)[j as int].key_id()],
                ));
            }
            let inst = *f.instructions_data.get(id);
            let op = lower_inst(f, &labels, inst);
            ops.push(op);
            proof {
                let pre = bd.instructions@.take(j as int);
                let cur = bd.instructions@.take(j + 1);
                assert(cur.drop_last() =~= pre);
                assert(cur.last() == bd.instructions@[j as int]);
                assert(block_ops(f, cur) == block_ops(f, pre).push(
                    lowered_inst(f, f.instructions_data@[id.key_id()]),
                ));
                assert(ops@ =~= created + body_ops(f, bi as int) + seq![
                    AsmOp::SetLabel { label: bi as usize },
                ] + block_ops(f, cur));
            }
            j = j + 1;
        }
        proof {
            assert(bd.instructions@.take(m as int) =~= insts_of_block(f, bi as int));
            assert(body_ops(f, bi + 1) == body_ops(f, bi as int) + seq![
                AsmOp::SetLabel { label: bi as usize },
            ] + block_ops(f, insts_of_block(f, bi as int)));
            assert(ops@ =~= created + body_ops(f, bi + 1));
        }
        bi = bi + 1;
    }
    proof {
        assert(ops@ =~= emit_ops(f));
    }
    ops
}

/// Relies on CodeAssembler::new: 64 is a valid bitness, and the source
/// rejects only bitnesses other than 16, 32 and 64, so this succeeds.
#[verifier::external_body]
fn asm_new() -> (r: Result<CodeAssembler, IcedError>)
    ensures
        r is Ok,
{
    CodeAssembler::new(64)
}

/// Relies on CodeAssembler::create_label: mints a fresh label for later
/// binding and reference.
#[verifier::external_body]
fn asm_create_label(enc: &mut CodeAssembler) -> (l: CodeLabel) {
    enc.create_label()
}

/// Relies on CodeAssembler::set_label: binds `label` to the next
/// instruction position, failing if the label is reused or the position
/// already carries a label.
#[verifier::external_body]
fn asm_set_label(enc: &mut CodeAssembler, label: &mut CodeLabel) -> (r: Result<(), IcedError>) {
    enc.set_label(label)
}

/// Relies on CodeAssembler::mov over two 64-bit registers.
#[verifier::external_body]
fn asm_mov_rr(
    enc: &mut CodeAssembler,
    dst: AsmRegister64,
    src: AsmRegister64,
) -> (r: Result<(), IcedError>) {
    enc.mov(dst, src)
}

/// Relies on CodeAssembler::mov from a 64-bit register to memory.
#[verifier::external_body]
fn asm_mov_mr(
    enc: &mut CodeAssembler,
    dst: AsmMemoryOperand,
    src: AsmRegister64,
) -> (r: Result<(), IcedError>) {
    enc.mov(dst, src)
}

/// Relies on CodeAssembler::cmp over two 64-bit registers.
#[verifier::external_body]
fn asm_cmp_rr(
    enc: &mut CodeAssembler,
    lhs: AsmRegister64,
    rhs: AsmRegister64,
) -> (r: Result<(), IcedError>) {
    enc.cmp(lhs, rhs)
}

/// Relies on CodeAssembler::jle with a label target.
#[verifier::external_body]
fn asm_jle(enc: &mut CodeAssembler, target: CodeLabel) -> (r: Result<(), IcedError>) {
    enc.jle(target)
}

/// Relies on CodeAssembler::je with a label target.
#[verifier::external_body]
fn asm_je(enc: &mut CodeAssembler, target: CodeLabel) -> (r: Result<(), IcedError>) {
    enc.je(target)
}

/// Relies on CodeAssembler::jl with a label target.
#[verifier::external_body]
fn asm_jl(enc: &mut CodeAssembler, target: CodeLabel) -> (r: Result<(), IcedError>) {
    enc.jl(target)
}

/// Relies on the assembler's 64-bit register constants: yields the
/// register object named like the given general-purpose register.
#[verifier::external_body]
fn reg64(r: X64Reg) -> (a: AsmRegister64)
    requires
        r != X64Reg::EFLAGS,
{
    match r {
        X64Reg::AX => rax, X64Reg::BX => rbx, X64Reg::CX => rcx, X64Reg::DX => rdx,
        X64Reg::SI => rsi, X64Reg::DI => rdi, X64Reg::BP => rbp, X64Reg::SP => rsp,
        X64Reg::R8 => r8, X64Reg::R9 => r9, X64Reg::R10 => r10, X64Reg::R11 => r11,
        X64Reg::R12 => r12, X64Reg::R13 => r13, X64Reg::R14 => r14, X64Reg::R15 => r15,
        X64Reg::EFLAGS => rax,
    }
}

/// Relies on qword_ptr: a quadword memory operand based at `base`.
#[verifier::external_body]
fn mem_base(base: AsmRegister64) -> (m: AsmMemoryOperand) {
    qword_ptr(base)
}

/// Relies on the operand product `register * scale`: the `index*scale`
/// term of a memory operand.
#[verifier::external_body]
fn mem_index_term(index: AsmRegister64, scale: u8) -> (m: AsmMemoryOperand) {
    index * scale
}

/// Relies on the operand sum of two memory-operand terms. The sum's debug
/// build asserts that at most one operand carries a base register and at
/// most one an index term; the one call site keeps that discipline, adding
/// a pure `index*scale` term (no base) to a base-only operand. The operand
/// type is opaque here, so that discipline cannot stand in a `requires`.
#[verifier::external_body]
fn mem_sum(a: AsmMemoryOperand, b: AsmMemoryOperand) -> (m: AsmMemoryOperand) {
    a + b
}

/// Relies on the operand sum `memory + displacement`.
#[verifier::external_body]
fn mem_displaced(a: AsmMemoryOperand, disp: i32) -> (m: AsmMemoryOperand) {
    a + disp
}

/// Emits `f` as machine code through the external assembler, one call per
/// entry of [`emit_ops`], in order: the first pass creates every block's
/// label before the second pass emits any instruction, so every branch
/// resolves; an encoding error the assembler reports is returned
/// unchanged. A function without blocks asks nothing of the assembler, so
/// its emission always succeeds.
pub fn emit_mc(f: &Func<X64Inst>) -> (r: Result<(), IcedError>)
    requires
        emit_wf(f),
    ensures
        f.blocks@.len() == 0 ==> r is Ok,
{
    let ops = lower_func(f);
    let n = f.blocks.len();
    let mut enc = match asm_new() {
        Ok(a) => a,
        Err(_) => unreached(),
    };
    let mut labels: Vec<CodeLabel> = Vec::new();
    let mut i: usize = 0;
    while i < ops.len()
        invariant
            emit_wf(f),
            ops@ == emit_ops(f),
            n == f.blocks@.len(),
            n == 0 ==> ops@.len() == 0,
            0 <= i <= ops@.len(),
            labels@.len() == (if i <= n {
                i as int
            } else {
                n as int
            }),
        decreases ops@.len() - i,
    {
        proof {
            lemma_emit_ops_resolve(f);
        }
        let op = ops[i];
        match op {
            AsmOp::CreateLabel => {
                proof {
                    assert(i < n);
                }
                let l = asm_create_label(&mut enc);
                labels.push(l);
            },
            AsmOp::SetLabel { label } => {
                proof {
                    assert(i >= n && label < n);
                }
                let mut l = labels[label];
                let res = asm_set_label(&mut enc, &mut l);
                labels[label] = l;
                match res {
                    Ok(_) => {
                    },
                    Err(e) => {
                        return Err(e);
                    },
                }
            },
            AsmOp::MovRR { dst, src } => {
                proof {
                    assert(i >= n);
                }
                match asm_mov_rr(&mut enc, reg64(dst), reg64(src)) {
                    Ok(_) => {
                    },
                    Err(e) => {
                        return Err(e);
                    },
                }
            },
            AsmOp::MovRM { src, dst } => {
                proof {
                    assert(i >= n);
                }
                let mut mem = mem_base(reg64(dst.base));
                match dst.index {
                    Some(t) => {
                        mem = mem_sum(mem, mem_index_term(reg64(t.reg), t.scale));
                    },
                    None => {
                    },
                }
                match dst.disp {
                    Some(d) => {
                        mem = mem_displaced(mem, d);
                    },
                    None => {
                    },
                }
                match asm_mov_mr(&mut enc, mem, reg64(src)) {
                    Ok(_) => {
                    },
                    Err(e) => {
                        return Err(e);
                    },
                }
            },
            AsmOp::CmpRR { lhs, rhs } => {
                proof {
                    assert(i >= n);
                }
                match asm_cmp_rr(&mut enc, reg64(lhs), reg64(rhs)) {
                    Ok(_) => {
                    },
                    Err(e) => {
                        return Err(e);
                    },
                }
            },
            AsmOp::Jle { label } => {
                proof {
                    assert(i >= n && label < n);
                }
                match asm_jle(&mut enc, labels[label]) {
                    Ok(_) => {
                    },
                    Err(e) => {
                        return Err(e);
                    },
                }
            },
            AsmOp::Je { label } => {
                proof {
                    assert(i >= n && label < n);
                }
                match asm_je(&mut enc, labels[label]) {
                    Ok(_) => {
                    },
                    Err(e) => {
                        return Err(e);
                    },
                }
            },
            AsmOp::Jl { label } => {
                proof {
                    assert(i >= n && label < n);
                }
                match asm_jl(&mut enc, labels[label]) {
                    Ok(_) => {
                    },
                    Err(e) => {
                        return Err(e);
                    },
                }
            },
        }
        i = i + 1;
    }
    Ok(())
}

} // verus!
