//! Adapters that widen what an underlying allocator supports: [`alloc_zst::AllocZst`],
//! [`dangle_zst::DangleZst`], [`panic_over_align::PanicOverAlign`].

pub mod alloc_zst;
pub mod dangle_zst;
pub mod panic_over_align;
