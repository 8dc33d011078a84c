//! Alignment values.

pub mod alignment;
pub mod alignn;
pub mod constants;
