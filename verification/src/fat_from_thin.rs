//! How a layout-taking ("fat") request is served by an allocator that only takes sizes
//! ("thin"): alignments above what the allocator guarantees are refused, the size is forwarded,
//! and zeroing reallocation is emulated by zeroing the added bytes.

use vstd::prelude::*;

verus! {

use crate::align::alignment::Alignment;
use crate::error::ExcessiveAlignmentRequestedError;
use crate::layout::Layout;
use crate::meta::Meta;

/// The size to ask a thin allocator `A` for when `layout` is requested, or the refusal when
/// `A` does not guarantee the alignment.
pub fn alloc_size<A: Meta>(layout: Layout) -> (r: Result<usize, ExcessiveAlignmentRequestedError>)
    ensures
        layout.spec_align() <= A::spec_max_align().spec_bytes() ==> r == Ok::<
            usize,
            ExcessiveAlignmentRequestedError,
        >(layout.spec_size()),
        layout.spec_align() > A::spec_max_align().spec_bytes() ==> r == Err::<
            usize,
            ExcessiveAlignmentRequestedError,
        >(ExcessiveAlignmentRequestedError { requested: layout.spec_alignment(), supported: A::spec_max_align() }),
{
    let supported = A::max_align();
    if layout.align() > supported.get() {
        return Err(ExcessiveAlignmentRequestedError { requested: layout.alignment(), supported });
    }
    Ok(layout.size())
}

/// The size to ask a thin allocator `A` to reallocate to when moving from `old_layout` to
/// `new_layout`, or the refusal when `A` does not guarantee the new alignment.  The old
/// alignment must be one `A` could have served.
pub fn realloc_size<A: Meta>(old_layout: Layout, new_layout: Layout) -> (r: Result<usize, ExcessiveAlignmentRequestedError>)
    requires
        old_layout.spec_align() <= A::spec_max_align().spec_bytes(),
    ensures
        r == alloc_size_spec::<A>(new_layout),
        new_layout.spec_align() <= A::spec_max_align().spec_bytes() ==> r == Ok::<
            usize,
            ExcessiveAlignmentRequestedError,
        >(new_layout.spec_size()),
        new_layout.spec_align() > A::spec_max_align().spec_bytes() ==> r == Err::<
            usize,
            ExcessiveAlignmentRequestedError,
        >(ExcessiveAlignmentRequestedError { requested: new_layout.spec_alignment(), supported: A::spec_max_align() }),
{
    let _ = old_layout;
    alloc_size::<A>(new_layout)
}

/// What [`alloc_size`] decides for `layout`.
pub open spec fn alloc_size_spec<A: Meta>(layout: Layout) -> Result<usize, ExcessiveAlignmentRequestedError> {
    if layout.spec_align() <= A::spec_max_align().spec_bytes() {
        Ok(layout.spec_size())
    } else {
        Err(ExcessiveAlignmentRequestedError { requested: layout.spec_alignment(), supported: A::spec_max_align() })
    }
}

/// A thin allocator serves a layout exactly when it guarantees the layout's alignment, and then
/// is asked for the layout's size; a reallocation is decided as an allocation of the new layout,
/// whatever the old layout was.
pub proof fn lemma_alloc_size_serves_supported_alignments<A: Meta>(
    old_layout: Layout,
    new_layout: Layout,
)
    ensures
        alloc_size_spec::<A>(new_layout) is Ok <==> new_layout.spec_align()
            <= A::spec_max_align().spec_bytes(),
        alloc_size_spec::<A>(new_layout) matches Ok(n) ==> n == new_layout.spec_size(),
        alloc_size_spec::<A>(new_layout) matches Err(e) ==> e == (ExcessiveAlignmentRequestedError {
            requested: new_layout.spec_alignment(),
            supported: A::spec_max_align(),
        }),
{
}

/// The bytes to zero after an uninitialized reallocation from `old_size` to `new_size` bytes,
/// when the allocator cannot zero them itself: the added bytes, if the block grew.
pub fn zero_fill_range(old_size: usize, new_size: usize) -> (r: Option<(usize, usize)>)
    ensures
        r == if old_size < new_size { Some((old_size, new_size)) } else { None::<(usize, usize)> },
{
    if old_size < new_size {
        Some((old_size, new_size))
    } else {
        None
    }
}

/// The layout a `GlobalAlloc::realloc` to `new_size` bytes asks for: the old alignment with the
/// new size, or `None` when that is not a valid layout (the request then fails with null).
pub fn global_alloc_realloc_layout(old_layout: Layout, new_size: usize) -> (r: Option<Layout>)
    ensures
        r is Some <==> vstd::layout::valid_layout(new_size, old_layout.spec_align()),
        r matches Some(l) ==> l.spec_size() == new_size && l.spec_alignment() == old_layout.spec_alignment(),
{
    old_layout.lemma_valid();
    match Layout::from_size_alignment(new_size, old_layout.alignment()) {
        Ok(l) => Some(l),
        Err(_) => None,
    }
}

} // verus!
