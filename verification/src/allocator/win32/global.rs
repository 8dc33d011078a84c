use vstd::prelude::*;

verus! {

use crate::align::alignment::Alignment;
use crate::align::constants::two_pointer_bytes;
use crate::allocator::win32::memory_allocation_alignment;
use crate::meta::Meta;

/// `GlobalAlloc`, `GlobalReAlloc`, `GlobalFree`, `GlobalSize`.
#[derive(Clone, Copy, Debug, Default, PartialEq, Eq, PartialOrd, Ord, Hash)]
pub struct Global;

impl Meta for Global {
    open spec fn spec_max_align() -> Alignment {
        Alignment::spec_constant(two_pointer_bytes())
    }

    open spec fn spec_max_size() -> usize {
        usize::MAX
    }

    open spec fn spec_zst_supported() -> bool {
        true
    }

    open spec fn spec_min_align() -> Alignment {
        Alignment::spec_constant(two_pointer_bytes())
    }

    fn max_align() -> (r: Alignment) {
        memory_allocation_alignment()
    }

    fn max_size() -> (r: usize) {
        usize::MAX
    }

    fn zst_supported() -> (r: bool) {
        true
    }

    fn min_align() -> (r: Alignment) {
        memory_allocation_alignment()
    }
}

} // verus!
