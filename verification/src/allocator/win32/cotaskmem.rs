use vstd::prelude::*;

verus! {

use crate::align::alignment::Alignment;
use crate::align::constants::two_pointer_bytes;
use crate::allocator::win32::memory_allocation_alignment;
use crate::meta::Meta;

/// `CoTaskMemAlloc`, `CoTaskMemRealloc`, `CoTaskMemFree`.
#[derive(Clone, Copy, Debug, Default, PartialEq, Eq, PartialOrd, Ord, Hash)]
pub struct CoTaskMem;

/// How a reallocation is done.
#[derive(Clone, Copy, Debug, PartialEq, Eq)]
pub enum CoTaskMemReallocStep {
    /// Allocate zero bytes with `CoTaskMemAlloc`, then free the old block if that succeeded.
    AllocThenFree,
    /// Resize the block with `CoTaskMemRealloc` to this many bytes.
    Realloc(usize),
}

impl CoTaskMem {
    /// How reallocating to `new_size` bytes is done: `CoTaskMemRealloc` frees on a zero size, so
    /// a zero-sized reallocation is a fresh `CoTaskMemAlloc(0)` followed by freeing the old block.
    pub fn realloc_step(new_size: usize) -> (r: CoTaskMemReallocStep)
        ensures
            r == if new_size == 0 {
                CoTaskMemReallocStep::AllocThenFree
            } else {
                CoTaskMemReallocStep::Realloc(new_size)
            },
    {
        if new_size == 0 {
            CoTaskMemReallocStep::AllocThenFree
        } else {
            CoTaskMemReallocStep::Realloc(new_size)
        }
    }

    /// The outcome of a zero-sized reallocation once `CoTaskMemAlloc(0)` returned `alloc` (`0`
    /// for null), and whether the old block is then freed: it is freed, and the new block
    /// returned, only when the allocation succeeded; otherwise the old block is kept.
    pub fn finish_alloc_then_free(alloc: usize) -> (r: (Result<usize, ()>, bool))
        ensures
            alloc == 0 ==> r == (Err::<usize, ()>(()), false),
            alloc != 0 ==> r == (Ok::<usize, ()>(alloc), true),
    {
        if alloc == 0 {
            (Err(()), false)
        } else {
            (Ok(alloc), true)
        }
    }

    /// The outcome of a reallocation once `CoTaskMemRealloc` returned `realloc` (`0` for null).
    pub fn finish_realloc(realloc: usize) -> (r: Result<usize, ()>)
        ensures
            realloc == 0 ==> r == Err::<usize, ()>(()),
            realloc != 0 ==> r == Ok::<usize, ()>(realloc),
    {
        if realloc == 0 {
            Err(())
        } else {
            Ok(realloc)
        }
    }

    /// Zeroing reallocation is not offered: always fails.
    pub fn realloc_zeroed(&self, ptr: usize, new_size: usize) -> (r: Result<usize, ()>)
        ensures
            r is Err,
    {
        let _ = (ptr, new_size);
        Err(())
    }
}

impl Meta for CoTaskMem {
    open spec fn spec_max_align() -> Alignment {
        Alignment::spec_constant(two_pointer_bytes())
    }

    open spec fn spec_max_size() -> usize {
        usize::MAX
    }

    open spec fn spec_zst_supported() -> bool {
        true
    }

    open spec fn spec_min_align() -> Alignment {
        Alignment::spec_constant(two_pointer_bytes())
    }

    fn max_align() -> (r: Alignment) {
        memory_allocation_alignment()
    }

    fn max_size() -> (r: usize) {
        usize::MAX
    }

    fn zst_supported() -> (r: bool) {
        true
    }

    fn min_align() -> (r: Alignment) {
        memory_allocation_alignment()
    }
}

} // verus!
