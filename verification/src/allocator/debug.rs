//! [`null::Null`]: an allocator that never allocates.

pub mod null;
