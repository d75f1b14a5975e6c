//! Generic auxiliary data structures: arena storage keyed by opaque handles,
//! and a growable bit set.

pub mod bitset;
pub mod slotmap;
