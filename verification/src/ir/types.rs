//! Semantic value types of the mid-level representation.

use vstd::prelude::*;

verus! {

/// The semantic type of a mid-level value.
#[derive(Clone, Copy, PartialEq, Eq, Structural, Debug)]
pub enum Type {
    I8,
    I16,
    I32,
    I64,
    Ptr,
    F32,
    F64,
    Void,
}

} // verus!
