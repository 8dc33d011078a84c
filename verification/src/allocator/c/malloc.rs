use vstd::prelude::*;

verus! {

use crate::align::alignment::Alignment;
use crate::meta::Meta;

/// The C type `max_align_t`, whose alignment is the largest that `malloc` guarantees.
#[verifier::external_type_specification]
#[verifier::external_body]
pub struct ExMaxAlignT(libc::max_align_t);

/// The C allocator: `malloc`, `calloc`, `realloc`, `free`.  It guarantees the alignment of
/// `max_align_t`.
#[derive(Clone, Copy, Debug, Default, PartialEq, Eq, PartialOrd, Ord, Hash)]
pub struct Malloc;

impl Malloc {
    /// Whether `realloc` can zero the memory it adds: only the MSVC runtime (`_recalloc`) can, so
    /// not on this target.
    pub fn can_realloc_zeroed() -> (r: bool)
        ensures
            !r,
    {
        false
    }

    /// Zeroing reallocation needs `_recalloc`, which this target lacks: always fails.
    pub fn realloc_zeroed(&self, ptr: usize, new_size: usize) -> (r: Result<usize, ()>)
        ensures
            r is Err,
    {
        let _ = (ptr, new_size);
        Err(())
    }

    /// The size of an allocation needs `_msize`, which this target lacks: always unknown.
    pub fn size_of_debug(&self, ptr: usize) -> (r: Option<usize>)
        ensures
            r is None,
    {
        let _ = ptr;
        None
    }
}

impl Meta for Malloc {
    open spec fn spec_max_align() -> Alignment {
        Alignment::spec_of::<libc::max_align_t>()
    }

    open spec fn spec_max_size() -> usize {
        usize::MAX
    }

    open spec fn spec_zst_supported() -> bool {
        false
    }

    open spec fn spec_min_align() -> Alignment {
        Alignment::spec_constant(1)
    }

    fn max_align() -> (r: Alignment) {
        Alignment::of::<libc::max_align_t>()
    }

    fn max_size() -> (r: usize) {
        usize::MAX
    }

    fn zst_supported() -> (r: bool) {
        false
    }

    fn min_align() -> (r: Alignment) {
        Alignment::minimum()
    }
}

} // verus!
