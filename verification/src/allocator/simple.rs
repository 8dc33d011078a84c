//! Allocators that carve allocations out of a fixed region: [`bump::Bump`] and
//! [`fixed_pool::FixedPoolLinearProbe`].

pub mod bump;
pub mod fixed_pool;
