use lilcy::codegen::tir::pass::regalloc::{allocate_registers, RegisterAllocator};
use lilcy::codegen::tir::x64::emit_mc::{emit_mc, lower_func, AsmOp, IndexTerm, MemArgs};
use lilcy::codegen::tir::x64::{JumpTarget, Mem, X64Inst, X64Reg};
use lilcy::codegen::tir::{Func, Inst, Reg, RegType};

#[test]
fn branch_label_resolution() {
    let mut f: Func<X64Inst> = Func::new();
    let b0 = f.add_block();
    let b1 = f.add_block();
    let j = f.add_instruction(Inst::Target(X64Inst::JLE { target: JumpTarget::BB(b1) }));
    f.add_block_instruction(b0, j);
    let ops = lower_func(&f);
    // Both labels are requested before any instruction is emitted, and the
    // forward branch in the first block resolves to the second label.
    assert_eq!(
        ops,
        vec![
            AsmOp::CreateLabel,
            AsmOp::CreateLabel,
            AsmOp::SetLabel { label: 0 },
            AsmOp::Jle { label: 1 },
            AsmOp::SetLabel { label: 1 },
        ]
    );
    assert!(emit_mc(&f).is_ok());
}

#[test]
fn backward_branch_resolves_too() {
    let mut f: Func<X64Inst> = Func::new();
    let b0 = f.add_block();
    let b1 = f.add_block();
    let c = f.add_instruction(Inst::Target(X64Inst::CMP64rr {
        lhs: Reg::Fixed(X64Reg::AX),
        rhs: Reg::Fixed(X64Reg::BX),
    }));
    let j = f.add_instruction(Inst::Target(X64Inst::JE { target: JumpTarget::BB(b0) }));
    f.add_block_instruction(b0, c);
    f.add_block_instruction(b1, j);
    let ops = lower_func(&f);
    assert_eq!(
        ops,
        vec![
            AsmOp::CreateLabel,
            AsmOp::CreateLabel,
            AsmOp::SetLabel { label: 0 },
            AsmOp::CmpRR { lhs: X64Reg::AX, rhs: X64Reg::BX },
            AsmOp::SetLabel { label: 1 },
            AsmOp::Je { label: 0 },
        ]
    );
    assert!(emit_mc(&f).is_ok());
}

#[test]
fn mem_operand_elision() {
    let mut f: Func<X64Inst> = Func::new();
    let b0 = f.add_block();
    let i0 = f.add_instruction(Inst::Target(X64Inst::MOV64rr {
        src: Reg::Fixed(X64Reg::AX),
        dst: Reg::Fixed(X64Reg::AX),
    }));
    let i1 = f.add_instruction(Inst::Target(X64Inst::MOV64rm {
        src: Reg::Fixed(X64Reg::AX),
        dst: Mem { reg: Reg::Fixed(X64Reg::SP), index: None, scale: 1, disp: 0 },
    }));
    f.add_block_instruction(b0, i0);
    f.add_block_instruction(b0, i1);
    let ops = lower_func(&f);
    // The zero displacement is elided and the absent index term is omitted
    // entirely from the generated memory operand.
    assert_eq!(
        ops,
        vec![
            AsmOp::CreateLabel,
            AsmOp::SetLabel { label: 0 },
            AsmOp::MovRR { dst: X64Reg::AX, src: X64Reg::AX },
            AsmOp::MovRM {
                src: X64Reg::AX,
                dst: MemArgs { base: X64Reg::SP, index: None, disp: None },
            },
        ]
    );
    assert!(emit_mc(&f).is_ok());
}

#[test]
fn mem_operand_with_index_and_displacement() {
    let mut f: Func<X64Inst> = Func::new();
    let b0 = f.add_block();
    let i0 = f.add_instruction(Inst::Target(X64Inst::MOV64rm {
        src: Reg::Fixed(X64Reg::DX),
        dst: Mem {
            reg: Reg::Fixed(X64Reg::BX),
            index: Some(Reg::Fixed(X64Reg::CX)),
            scale: 4,
            disp: 8,
        },
    }));
    f.add_block_instruction(b0, i0);
    let ops = lower_func(&f);
    assert_eq!(
        ops[2],
        AsmOp::MovRM {
            src: X64Reg::DX,
            dst: MemArgs {
                base: X64Reg::BX,
                index: Some(IndexTerm { reg: X64Reg::CX, scale: 4 }),
                disp: Some(8),
            },
        }
    );
    assert!(emit_mc(&f).is_ok());
}

#[test]
fn empty_function_emits_nothing() {
    let f: Func<X64Inst> = Func::new();
    let ops = lower_func(&f);
    assert!(ops.is_empty());
    assert!(emit_mc(&f).is_ok());
}

struct OneRegAllocator;

impl RegisterAllocator<X64Reg> for OneRegAllocator {
    fn alloc_reg(&mut self, _cls: RegType) -> X64Reg {
        X64Reg::AX
    }
}

#[test]
fn allocator_seam_leaves_the_function_unchanged() {
    let mut f: Func<X64Inst> = Func::new();
    let b0 = f.add_block();
    let i0 = f.add_instruction(Inst::Target(X64Inst::MOV64rr {
        src: Reg::Fixed(X64Reg::AX),
        dst: Reg::Fixed(X64Reg::BX),
    }));
    f.add_block_instruction(b0, i0);
    let mut ra = OneRegAllocator;
    allocate_registers(&mut f, &mut ra);
    assert_eq!(f.blocks.len(), 1);
    assert_eq!(lower_func(&f).len(), 3);
    assert_eq!(ra.alloc_reg(RegType::Int), X64Reg::AX);
}
