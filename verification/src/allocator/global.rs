//! [`Global`]: the global allocator of the `alloc` crate.

use vstd::prelude::*;

verus! {

use crate::align::alignment::Alignment;
use crate::layout::Layout;
use crate::meta::Meta;

/// The global allocator of the `alloc` crate (`alloc`, `alloc_zeroed`, `realloc`, `dealloc`).
///
/// The functions of this type decide how a request is served; the caller performs the system
/// calls they ask for.
#[derive(Clone, Copy, Debug, Default, PartialEq, Eq, PartialOrd, Ord, Hash)]
pub struct Global;

/// How an allocation request is served.
#[derive(Clone, Copy, Debug, PartialEq, Eq)]
pub enum GlobalAllocStep {
    /// Answer with this address; nothing is allocated.
    Dangle(usize),
    /// Refuse the request.
    Refuse,
    /// Ask the global allocator for this layout.
    System(Layout),
}

/// How a reallocation request is served.
#[derive(Clone, Copy, Debug, PartialEq, Eq)]
pub enum GlobalReallocStep {
    /// Refuse the request.
    Refuse,
    /// The layouts are equal: answer with the old pointer.
    Keep,
    /// Allocate as `alloc` says, copy `copy_len` bytes over, then, if `free_old`, free the old
    /// allocation.
    Move { alloc: GlobalAllocStep, copy_len: usize, free_old: bool },
    /// Ask the global allocator to resize the allocation, keeping its alignment, to this size.
    System(usize),
}

/// The largest size the global allocator is asked for: `isize::MAX`.
pub open spec fn global_max_size() -> usize {
    (usize::MAX / 2) as usize
}

/// What [`Global::alloc_uninit`] decides for `layout`.
pub open spec fn spec_global_alloc(layout: Layout) -> GlobalAllocStep {
    if layout.spec_size() == 0 {
        GlobalAllocStep::Dangle(layout.spec_align())
    } else if layout.spec_size() > global_max_size() {
        GlobalAllocStep::Refuse
    } else {
        GlobalAllocStep::System(layout)
    }
}

/// What [`Global::realloc_uninit`] decides for resizing from `old_layout` to `new_layout`.
pub open spec fn spec_global_realloc(old_layout: Layout, new_layout: Layout) -> GlobalReallocStep {
    let old_size = old_layout.spec_size();
    let new_size = new_layout.spec_size();
    if new_size > global_max_size() {
        GlobalReallocStep::Refuse
    } else if old_layout == new_layout {
        GlobalReallocStep::Keep
    } else if old_layout.spec_align() != new_layout.spec_align() || old_size == 0 || new_size == 0 {
        GlobalReallocStep::Move {
            alloc: spec_global_alloc(new_layout),
            copy_len: if old_size < new_size { old_size } else { new_size },
            free_old: old_size != 0,
        }
    } else {
        GlobalReallocStep::System(new_size)
    }
}

impl Global {
    /// Allocating `layout`: zero sizes dangle at the alignment, sizes above [`global_max_size`]
    /// are refused, anything else goes to the global allocator.
    pub fn alloc_uninit(layout: Layout) -> (r: GlobalAllocStep)
        ensures
            r == spec_global_alloc(layout),
    {
        let size = layout.size();
        if size == 0 {
            GlobalAllocStep::Dangle(crate::util::nn::dangling(layout))
        } else if size > usize::MAX / 2 {
            GlobalAllocStep::Refuse
        } else {
            GlobalAllocStep::System(layout)
        }
    }

    /// Whether freeing an allocation of `layout` reaches the global allocator: zero-sized
    /// allocations were never made.
    pub fn free_is_system(layout: Layout) -> (r: bool)
        ensures
            r == (layout.spec_size() != 0),
    {
        layout.size() != 0
    }

    /// Reallocating from `old_layout` to `new_layout`.  Equal layouts keep the allocation; a
    /// change of alignment, or a zero size on either side, moves it to a new allocation; anything
    /// else is resized by the global allocator.
    pub fn realloc_uninit(old_layout: Layout, new_layout: Layout) -> (r: GlobalReallocStep)
        ensures
            r == spec_global_realloc(old_layout, new_layout),
    {
        let old_size = old_layout.size();
        let new_size = new_layout.size();
        let old_align = old_layout.align();
        let new_align = new_layout.align();
        if new_size > usize::MAX / 2 {
            GlobalReallocStep::Refuse
        } else if old_size == new_size && old_align == new_align {
            proof {
                Layout::lemma_eq(old_layout, new_layout);
            }
            GlobalReallocStep::Keep
        } else if old_align != new_align || old_size == 0 || new_size == 0 {
            GlobalReallocStep::Move {
                alloc: Self::alloc_uninit(new_layout),
                copy_len: if old_size < new_size { old_size } else { new_size },
                free_old: Self::free_is_system(old_layout),
            }
        } else {
            GlobalReallocStep::System(new_size)
        }
    }
}

/// An allocation of a zero-sized layout dangles at its alignment and allocates nothing; any
/// other layout of at most `isize::MAX` bytes is asked of the global allocator unchanged.
pub proof fn lemma_global_alloc_serves_layout(layout: Layout)
    ensures
        layout.spec_size() == 0 ==> spec_global_alloc(layout) == GlobalAllocStep::Dangle(
            layout.spec_align(),
        ),
        0 < layout.spec_size() <= usize::MAX / 2 ==> spec_global_alloc(layout)
            == GlobalAllocStep::System(layout),
        layout.spec_size() > usize::MAX / 2 ==> spec_global_alloc(layout) is Refuse,
{
}

/// The global allocator resizes a block in place only when the alignment stays the same and
/// both sizes are nonzero, and then to the new size; equal layouts keep the block; any other
/// change within the size limit, in particular any change of alignment, moves the block to a
/// new allocation of the new layout, copying the bytes both layouts share and freeing the old
/// block when it was a real one.
pub proof fn lemma_global_realloc_keeps_alignment(old_layout: Layout, new_layout: Layout)
    ensures
        spec_global_realloc(old_layout, new_layout) is System ==> old_layout.spec_align()
            == new_layout.spec_align() && old_layout.spec_size() > 0 && new_layout.spec_size() > 0
            && spec_global_realloc(old_layout, new_layout)->System_0 == new_layout.spec_size(),
        spec_global_realloc(old_layout, new_layout) is Keep ==> old_layout == new_layout,
        spec_global_realloc(old_layout, new_layout) is Refuse <==> new_layout.spec_size()
            > usize::MAX / 2,
        new_layout.spec_size() <= usize::MAX / 2 && old_layout != new_layout && (
        old_layout.spec_align() != new_layout.spec_align() || old_layout.spec_size() == 0
            || new_layout.spec_size() == 0) ==> spec_global_realloc(old_layout, new_layout)
            == (GlobalReallocStep::Move {
            alloc: if new_layout.spec_size() == 0 {
                GlobalAllocStep::Dangle(new_layout.spec_align())
            } else {
                GlobalAllocStep::System(new_layout)
            },
            copy_len: if old_layout.spec_size() < new_layout.spec_size() {
                old_layout.spec_size()
            } else {
                new_layout.spec_size()
            },
            free_old: old_layout.spec_size() > 0,
        }),
{
}

/// No layout is larger than `isize::MAX`, so the global allocator never refuses a request for
/// its size.
pub proof fn lemma_global_never_refuses(layout: Layout)
    requires
        vstd::layout::valid_layout(layout.spec_size(), layout.spec_align()),
    ensures
        spec_global_alloc(layout) != GlobalAllocStep::Refuse,
{
    reveal(vstd::arithmetic::power2::is_pow2);
    if usize::BITS == 64 {
        assert(isize::MAX == 0x7fff_ffff_ffff_ffffint);
        assert(usize::MAX == 0xffff_ffff_ffff_ffffint);
    } else {
        assert(isize::MAX == 0x7fff_ffffint);
        assert(usize::MAX == 0xffff_ffffint);
    }
}

impl Meta for Global {
    open spec fn spec_max_align() -> Alignment {
        Alignment::spec_maximum()
    }

    open spec fn spec_max_size() -> usize {
        global_max_size()
    }

    open spec fn spec_zst_supported() -> bool {
        true
    }

    open spec fn spec_min_align() -> Alignment {
        Alignment::spec_constant(1)
    }

    fn max_align() -> (r: Alignment) {
        Alignment::maximum()
    }

    fn max_size() -> (r: usize) {
        usize::MAX / 2
    }

    fn zst_supported() -> (r: bool) {
        true
    }

    fn min_align() -> (r: Alignment) {
        Alignment::minimum()
    }
}

} // verus!
