//! Allocators and allocator adapters.

pub mod adapt;
pub mod c;
pub mod cpp;
pub mod debug;
pub mod global;
pub mod simple;
pub mod win32;
