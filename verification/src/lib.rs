//! Allocator interface building blocks: validated alignments, layouts, and the
//! decision logic of a family of allocators and allocator adapters.

pub mod align;
pub mod allocator;
pub mod auto;
pub mod error;
pub mod fat_from_thin;
pub mod layout;
pub mod meta;
pub mod util;
