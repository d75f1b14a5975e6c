//! The typed mid-level program representation: functions own arenas of
//! blocks, instructions and values, and a builder appends well-typed
//! instructions into a chosen block.

pub mod block;
pub mod builder;
pub mod func;
pub mod inst;
pub mod types;
pub mod value;
