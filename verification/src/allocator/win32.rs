//! Win32 allocators: [`cotaskmem::CoTaskMem`], [`cryptmem::CryptMem`], [`global::Global`],
//! [`heap::ProcessHeap`], [`local::Local`], [`virtual_::VirtualCommit`], and the decisions of the
//! COM `IMalloc` interface ([`imalloc`]).
//!
//! Many of these allocators are, these days, wrappers around the process heap, possibly with
//! extra overhead.

pub mod cotaskmem;
pub mod cryptmem;
pub mod global;
pub mod heap;
pub mod imalloc;
pub mod local;
pub mod virtual_;

use vstd::prelude::*;

verus! {

use crate::align::alignment::Alignment;
use crate::align::constants::{two_pointer_alignment, two_pointer_bytes};

/// `MEMORY_ALLOCATION_ALIGNMENT`: the alignment of heap allocations, 16 bytes on 64-bit Windows
/// and 8 bytes on 32-bit Windows.
pub fn memory_allocation_alignment() -> (r: Alignment)
    ensures
        r == Alignment::spec_constant(two_pointer_bytes()),
{
    two_pointer_alignment()
}

/// The size `GlobalSize` / `LocalSize` report for an allocation, given the value returned and
/// the thread's last error after clearing it: `0` with an error set means failure.
pub fn size_from_query(size: usize, last_error: u32) -> (r: Option<usize>)
    ensures
        r == if size == 0 && last_error != 0 { None } else { Some(size) },
{
    if size == 0 && last_error != 0 {
        return None;
    }
    Some(size)
}

/// The size `HeapSize` / `IMalloc::GetSize` report for an allocation, given the value returned:
/// all bits set (`(SIZE_T)-1`) means failure.
pub fn size_from_heap_query(size: usize) -> (r: Option<usize>)
    ensures
        r == if size == usize::MAX { None } else { Some(size) },
{
    if size == usize::MAX {
        return None;
    }
    Some(size)
}

} // verus!
