use vstd::prelude::*;

verus! {

use vstd::layout::valid_layout;
use crate::align::alignment::{Alignment, max_alignment_bytes};
use crate::error::ExcessiveAlignmentRequestedError;
use crate::layout::Layout;
use crate::meta::Meta;

/// If the underlying allocator doesn't support ZSTs, add support by increasing sizes to at least
/// 1 byte.  This potentially wastes a little memory and performance - but allows for C/C++
/// interop with fewer edge cases.
#[derive(Clone, Copy, Debug, Default, PartialEq, Eq, PartialOrd, Ord, Hash)]
pub struct AllocZst<A>(pub A);

impl<A: Meta> AllocZst<A> {
    /// The size to ask the underlying allocator for when `size` bytes are requested.
    pub fn fix_thin_size(size: usize) -> (r: usize)
        ensures
            r == if A::spec_zst_supported() || size > 0 { size } else { 1 },
    {
        if A::zst_supported() || size > 0 {
            size
        } else {
            1
        }
    }

    /// The layout to ask the underlying allocator for when `layout` is requested: zero-sized
    /// layouts grow to one byte of the same alignment, unless that is not a valid layout.
    pub fn fix_layout(layout: Layout) -> (r: Result<Layout, ExcessiveAlignmentRequestedError>)
        ensures
            A::spec_zst_supported() || layout.spec_size() != 0 ==> r == Ok::<
                Layout,
                ExcessiveAlignmentRequestedError,
            >(layout),
            !A::spec_zst_supported() && layout.spec_size() == 0 ==> {
                &&& r is Ok <==> valid_layout(1, layout.spec_align())
                &&& r matches Ok(l) ==> l.spec_size() == 1 && l.spec_alignment()
                    == layout.spec_alignment()
                &&& r matches Err(e) ==> e.requested == layout.spec_alignment()
                    && e.supported.spec_bytes() == max_alignment_bytes() / 2
            },
    {
        if A::zst_supported() || layout.size() != 0 {
            Ok(layout)
        } else {
            match Layout::from_size_alignment(1, layout.alignment()) {
                Ok(l) => Ok(l),
                Err(_) => {
                    proof {
                        crate::align::alignment::lemma_max_alignment_is_pow2();
                        crate::align::alignment::lemma_half_max_alignment_is_pow2();
                    }
                    Err(ExcessiveAlignmentRequestedError {
                        requested: layout.alignment(),
                        supported: Alignment::constant(Alignment::maximum().get() / 2),
                    })
                },
            }
        }
    }
}

impl<A> core::ops::Deref for AllocZst<A> {
    type Target = A;

    fn deref(&self) -> (r: &A)
        ensures
            *r == self.0,
    {
        &self.0
    }
}

/// The adapter reports the limits of the allocator it wraps, and adds support for zero sizes.
pub proof fn lemma_alloc_zst_limits<A: Meta>()
    ensures
        <AllocZst<A> as Meta>::spec_max_align() == A::spec_max_align(),
        <AllocZst<A> as Meta>::spec_max_size() == A::spec_max_size(),
        <AllocZst<A> as Meta>::spec_min_align() == A::spec_min_align(),
        <AllocZst<A> as Meta>::spec_zst_supported(),
{
}

impl<A: Meta> Meta for AllocZst<A> {
    open spec fn spec_max_align() -> Alignment {
        A::spec_max_align()
    }

    open spec fn spec_max_size() -> usize {
        A::spec_max_size()
    }

    open spec fn spec_zst_supported() -> bool {
        true
    }

    open spec fn spec_min_align() -> Alignment {
        A::spec_min_align()
    }

    fn max_align() -> (r: Alignment) {
        A::max_align()
    }

    fn max_size() -> (r: usize) {
        A::max_size()
    }

    fn zst_supported() -> (r: bool) {
        true
    }

    fn min_align() -> (r: Alignment) {
        A::min_align()
    }
}

} // verus!
