//! Values of the mid-level representation: instruction results and function
//! arguments.

use crate::ir::inst::Inst;
use crate::ir::types::Type;
use crate::support::slotmap::Key;
use vstd::prelude::*;

verus! {

/// The key of a value in its function's value arena.
#[derive(Clone, Copy, PartialEq, Eq, Structural, Debug)]
pub struct Value(pub u32);

impl Key for Value {
    open spec fn key_id(self) -> int {
        self.0 as int
    }

    open spec fn none_id() -> int {
        u32::MAX as int
    }

    proof fn key_id_in_range(self) {
    }

    fn new(v: usize) -> Self {
        Value(v as u32)
    }

    fn index(&self) -> usize {
        self.0 as usize
    }

    fn none_val() -> Self {
        Value(u32::MAX)
    }

    fn is_none(self) -> bool {
        self.0 == u32::MAX
    }
}

/// What a value is: the result of an instruction, or the function argument
/// at some ordinal. A value is produced exactly once and its type never
/// changes.
pub enum ValueData {
    Inst { typ: Type, inst: Inst },
    Arg { typ: Type, idx: u16 },
}

impl ValueData {
    /// The semantic type this value carries.
    pub open spec fn typ_spec(&self) -> Type {
        match *self {
            ValueData::Inst { typ, .. } => typ,
            ValueData::Arg { typ, .. } => typ,
        }
    }

    pub fn get_type(&self) -> (t: Type)
        ensures
            t == self.typ_spec(),
    {
        match self {
            ValueData::Inst { typ, .. } => *typ,
            ValueData::Arg { typ, .. } => *typ,
        }
    }
}

} // verus!
