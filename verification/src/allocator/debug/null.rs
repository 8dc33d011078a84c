use vstd::prelude::*;

verus! {

use crate::align::alignment::Alignment;
use crate::layout::Layout;
use crate::meta::Meta;

/// Never allocates anything, not even zero-sized allocations.  Nothing can be freed through
/// it, since nothing was ever allocated by it.
#[derive(Clone, Copy, Debug, Default, PartialEq, Eq, PartialOrd, Ord, Hash)]
pub struct Null;

impl Null {
    /// Allocating by size always fails.
    pub fn alloc_uninit(&self, size: usize) -> (r: Result<usize, ()>)
        ensures
            r is Err,
    {
        let _ = size;
        Err(())
    }

    /// Allocating zeroed memory by size always fails.
    pub fn alloc_zeroed(&self, size: usize) -> (r: Result<usize, ()>)
        ensures
            r is Err,
    {
        let _ = size;
        Err(())
    }

    /// Reallocating by size always fails.
    pub fn realloc_uninit(&self, ptr: usize, new_size: usize) -> (r: Result<usize, ()>)
        ensures
            r is Err,
    {
        let _ = (ptr, new_size);
        Err(())
    }

    /// Reallocating to zeroed memory by size always fails.
    pub fn realloc_zeroed(&self, ptr: usize, new_size: usize) -> (r: Result<usize, ()>)
        ensures
            r is Err,
    {
        let _ = (ptr, new_size);
        Err(())
    }

    /// Allocating a layout always fails.
    pub fn fat_alloc_uninit(&self, layout: Layout) -> (r: Result<usize, ()>)
        ensures
            r is Err,
    {
        let _ = layout;
        Err(())
    }

    /// Allocating a zeroed layout always fails.
    pub fn fat_alloc_zeroed(&self, layout: Layout) -> (r: Result<usize, ()>)
        ensures
            r is Err,
    {
        let _ = layout;
        Err(())
    }

    /// Reallocating between layouts always fails.
    pub fn fat_realloc_uninit(&self, ptr: usize, old_layout: Layout, new_layout: Layout) -> (r: Result<usize, ()>)
        ensures
            r is Err,
    {
        let _ = (ptr, old_layout, new_layout);
        Err(())
    }

    /// Reallocating between layouts to zeroed memory always fails.
    pub fn fat_realloc_zeroed(&self, ptr: usize, old_layout: Layout, new_layout: Layout) -> (r: Result<usize, ()>)
        ensures
            r is Err,
    {
        let _ = (ptr, old_layout, new_layout);
        Err(())
    }
}

impl Meta for Null {
    open spec fn spec_max_align() -> Alignment {
        Alignment::spec_maximum()
    }

    open spec fn spec_max_size() -> usize {
        usize::MAX
    }

    open spec fn spec_zst_supported() -> bool {
        true
    }

    open spec fn spec_min_align() -> Alignment {
        Alignment::spec_constant(1)
    }

    fn max_align() -> (r: Alignment) {
        Alignment::maximum()
    }

    fn max_size() -> (r: usize) {
        usize::MAX
    }

    fn zst_supported() -> (r: bool) {
        true
    }

    fn min_align() -> (r: Alignment) {
        Alignment::minimum()
    }
}

} // verus!
