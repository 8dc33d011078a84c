use vstd::prelude::*;

verus! {

use crate::align::alignment::Alignment;
use crate::error::ExcessiveAlignmentRequestedError;
use crate::layout::Layout;
use crate::meta::Meta;

/// Adapt an allocator to a wider interface, refusing (by panicking, in unverified callers) any
/// request for more than [`Meta::max_align`] alignment.  Verified callers must show that every
/// request stays within the supported alignment.
#[derive(Clone, Copy, Debug, Default, PartialEq, Eq, PartialOrd, Ord, Hash)]
pub struct PanicOverAlign<A>(pub A);

/// Checks a requested alignment against the supported one at run time: a request above the
/// supported alignment is answered with an error naming both, on which the adapter panics.
pub fn check_alignment(requested: Alignment, supported: Alignment) -> (r: Result<
    (),
    ExcessiveAlignmentRequestedError,
>)
    ensures
        r is Ok <==> requested.spec_bytes() <= supported.spec_bytes(),
        r matches Err(e) ==> e == (ExcessiveAlignmentRequestedError { requested, supported }),
{
    if requested.get() <= supported.get() {
        Ok(())
    } else {
        Err(ExcessiveAlignmentRequestedError { requested, supported })
    }
}

/// Checks a requested alignment against the supported one; a request above the supported
/// alignment is a caller bug, which the precondition rules out.
pub fn assert_valid_alignment(requested: usize, supported: usize)
    requires
        requested <= supported,
{
    let _ = (requested, supported);
}

/// Checks the alignment of an allocation being freed or reallocated: one above what the
/// allocator supports cannot have come from it, which the precondition rules out.
pub fn freed_old_alignment(freed: usize, supported: usize)
    requires
        freed <= supported,
{
    let _ = (freed, supported);
}

impl<A: Meta> PanicOverAlign<A> {
    /// The run-time check made before an allocation or a reallocation is handed to the underlying
    /// allocator: `layout` passes through unchanged when its alignment is supported, and is
    /// refused with the requested and supported alignments otherwise.
    pub fn check_layout(layout: Layout) -> (r: Result<Layout, ExcessiveAlignmentRequestedError>)
        ensures
            r is Ok <==> layout.spec_align() <= A::spec_max_align().spec_bytes(),
            r matches Ok(l) ==> l == layout,
            r matches Err(e) ==> e == (ExcessiveAlignmentRequestedError {
                requested: layout.spec_alignment(),
                supported: A::spec_max_align(),
            }),
    {
        match check_alignment(layout.alignment(), A::max_align()) {
            Ok(()) => Ok(layout),
            Err(e) => Err(e),
        }
    }

    /// The layout an allocation request hands to the underlying allocator: the same one, once its
    /// alignment is known to be supported.
    pub fn alloc_layout(layout: Layout) -> (r: Layout)
        requires
            layout.spec_align() <= A::spec_max_align().spec_bytes(),
        ensures
            r == layout,
    {
        assert_valid_alignment(layout.align(), A::max_align().get());
        layout
    }

    /// The layouts a reallocation hands to the underlying allocator: the same ones, once the old
    /// alignment is known to be one the allocator could have served and the new one supported.
    pub fn realloc_layouts(old_layout: Layout, new_layout: Layout) -> (r: (Layout, Layout))
        requires
            old_layout.spec_align() <= A::spec_max_align().spec_bytes(),
            new_layout.spec_align() <= A::spec_max_align().spec_bytes(),
        ensures
            r == (old_layout, new_layout),
    {
        let supported = A::max_align().get();
        freed_old_alignment(old_layout.align(), supported);
        assert_valid_alignment(new_layout.align(), supported);
        (old_layout, new_layout)
    }
}

impl<A> core::ops::Deref for PanicOverAlign<A> {
    type Target = A;

    fn deref(&self) -> (r: &A)
        ensures
            *r == self.0,
    {
        &self.0
    }
}

/// The adapter reports exactly the limits of the allocator it wraps.
pub proof fn lemma_panic_over_align_limits<A: Meta>()
    ensures
        <PanicOverAlign<A> as Meta>::spec_max_align() == A::spec_max_align(),
        <PanicOverAlign<A> as Meta>::spec_max_size() == A::spec_max_size(),
        <PanicOverAlign<A> as Meta>::spec_min_align() == A::spec_min_align(),
        <PanicOverAlign<A> as Meta>::spec_zst_supported() == A::spec_zst_supported(),
{
}

impl<A: Meta> Meta for PanicOverAlign<A> {
    open spec fn spec_max_align() -> Alignment {
        A::spec_max_align()
    }

    open spec fn spec_max_size() -> usize {
        A::spec_max_size()
    }

    open spec fn spec_zst_supported() -> bool {
        A::spec_zst_supported()
    }

    open spec fn spec_min_align() -> Alignment {
        A::spec_min_align()
    }

    fn max_align() -> (r: Alignment) {
        A::max_align()
    }

    fn max_size() -> (r: usize) {
        A::max_size()
    }

    fn zst_supported() -> (r: bool) {
        A::zst_supported()
    }

    fn min_align() -> (r: Alignment) {
        A::min_align()
    }
}

} // verus!
