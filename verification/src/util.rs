//! Small helpers shared by the allocators.

pub mod bytes;
pub mod nn;
