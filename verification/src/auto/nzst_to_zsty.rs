use vstd::prelude::*;

verus! {

use crate::layout::Layout;

/// How a layout allocation is served by an allocator that only takes nonzero sizes.
#[derive(Clone, Copy, Debug, PartialEq, Eq)]
pub enum ZstyAllocStep {
    /// Ask the allocator for this (nonzero-sized) layout.
    Inner(Layout),
    /// Answer with this dangling address; nothing is allocated.
    Dangle(usize),
}

/// How a layout reallocation is served by an allocator that only takes nonzero sizes.
#[derive(Clone, Copy, Debug, PartialEq, Eq)]
pub enum ZstyReallocStep {
    /// The old block was zero-sized: allocate the new layout instead.
    Alloc(Layout),
    /// Both sizes are nonzero: reallocate through the allocator.
    Realloc,
    /// The new size is zero: free the old block and answer with this dangling address.
    FreeThenDangle(usize),
    /// Both sizes are zero: answer with this dangling address.
    Dangle(usize),
}

/// Allocating `layout`: nonzero sizes go to the allocator, zero sizes dangle at the alignment.
pub fn alloc_step(layout: Layout) -> (r: ZstyAllocStep)
    ensures
        r == if layout.spec_size() != 0 {
            ZstyAllocStep::Inner(layout)
        } else {
            ZstyAllocStep::Dangle(layout.spec_align())
        },
{
    if layout.size() != 0 {
        ZstyAllocStep::Inner(layout)
    } else {
        ZstyAllocStep::Dangle(crate::util::nn::dangling(layout))
    }
}

/// Whether freeing a block of `layout` reaches the allocator: zero-sized blocks are the dangling
/// address and were never allocated.
pub fn free_is_inner(ptr: usize, layout: Layout) -> (r: bool)
    requires
        layout.spec_size() == 0 ==> ptr == layout.spec_align(),
    ensures
        r == (layout.spec_size() != 0),
{
    let _ = ptr;
    layout.size() != 0
}

/// What [`realloc_step`] decides for moving from `old_layout` to `new_layout`.
pub open spec fn realloc_spec(old_layout: Layout, new_layout: Layout) -> ZstyReallocStep {
    if old_layout.spec_size() == 0 {
        if new_layout.spec_size() != 0 {
            ZstyReallocStep::Alloc(new_layout)
        } else {
            ZstyReallocStep::Dangle(new_layout.spec_align())
        }
    } else if new_layout.spec_size() != 0 {
        ZstyReallocStep::Realloc
    } else {
        ZstyReallocStep::FreeThenDangle(new_layout.spec_align())
    }
}

/// Reallocating `ptr` from `old_layout` to `new_layout`; a zero-sized old block must be the
/// dangling address of its layout.
pub fn realloc_step(ptr: usize, old_layout: Layout, new_layout: Layout) -> (r: ZstyReallocStep)
    requires
        old_layout.spec_size() == 0 ==> ptr == old_layout.spec_align(),
    ensures
        r == realloc_spec(old_layout, new_layout),
{
    let _ = ptr;
    if old_layout.size() == 0 {
        if new_layout.size() != 0 {
            ZstyReallocStep::Alloc(new_layout)
        } else {
            ZstyReallocStep::Dangle(crate::util::nn::dangling(new_layout))
        }
    } else if new_layout.size() != 0 {
        ZstyReallocStep::Realloc
    } else {
        ZstyReallocStep::FreeThenDangle(crate::util::nn::dangling(new_layout))
    }
}

/// A reallocation reaches the allocator only between nonzero sizes; a zero-sized old block is
/// replaced by a fresh allocation of the new layout; a zero-sized new block is the dangling
/// address of the new alignment, and the old block is freed exactly when it was a real one.
pub proof fn lemma_realloc_reaches_allocator_only_between_nonzero_sizes(
    old_layout: Layout,
    new_layout: Layout,
)
    ensures
        realloc_spec(old_layout, new_layout) is Realloc <==> old_layout.spec_size() != 0
            && new_layout.spec_size() != 0,
        old_layout.spec_size() == 0 && new_layout.spec_size() != 0 ==> realloc_spec(
            old_layout,
            new_layout,
        ) == ZstyReallocStep::Alloc(new_layout),
        old_layout.spec_size() != 0 && new_layout.spec_size() == 0 ==> realloc_spec(
            old_layout,
            new_layout,
        ) == ZstyReallocStep::FreeThenDangle(new_layout.spec_align()),
        old_layout.spec_size() == 0 && new_layout.spec_size() == 0 ==> realloc_spec(
            old_layout,
            new_layout,
        ) == ZstyReallocStep::Dangle(new_layout.spec_align()),
{
}

} // verus!
