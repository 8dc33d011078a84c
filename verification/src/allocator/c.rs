//! The C standard library allocators: [`malloc::Malloc`] and [`aligned_malloc::AlignedMalloc`].

pub mod aligned_malloc;
pub mod malloc;
