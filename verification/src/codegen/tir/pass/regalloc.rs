//! The register-allocation seam: the interface is fixed here, but no
//! allocation algorithm ships with this core.

use crate::codegen::tir::{Func, RegType, TargetInst, TargetReg};
use vstd::prelude::*;

verus! {

/// The extension point for register allocation: yields some physical
/// register suitable for the requested class. Implementations may be
/// stateful; nothing is promised about spilling, eviction or liveness.
pub trait RegisterAllocator<R: TargetReg> {
    fn alloc_reg(&mut self, cls: RegType) -> R;
}

/// Walks the function's blocks handing allocation requests to `ra`. No
/// allocation algorithm exists in this core yet, so the function is left
/// unchanged.
pub fn allocate_registers<I: TargetInst, R: TargetReg, RA: RegisterAllocator<R>>(
    f: &mut Func<I>,
    ra: &mut RA,
)
    ensures
        *final(f) == *old(f),
{
    let mut i: usize = 0;
    while i < f.blocks.len()
        invariant
            *f == *old(f),
            0 <= i <= f.blocks@.len(),
        decreases f.blocks@.len() - i,
    {
        let _block = f.blocks[i];
        i = i + 1;
    }
}

} // verus!
