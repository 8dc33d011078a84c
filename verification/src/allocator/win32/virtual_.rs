use vstd::prelude::*;

verus! {

use crate::align::alignment::Alignment;
use crate::align::constants::align_4_kib;
use crate::meta::Meta;

/// `VirtualAlloc(nullptr, size, MEM_COMMIT, PAGE_READWRITE)` and `VirtualFree(ptr, 0, MEM_RELEASE)`:
/// whole pages, always zeroed.
#[derive(Clone, Copy, Debug, Default, PartialEq, Eq, PartialOrd, Ord, Hash)]
pub struct VirtualCommit;

impl Meta for VirtualCommit {
    open spec fn spec_max_align() -> Alignment {
        Alignment::spec_constant(4096)
    }

    open spec fn spec_max_size() -> usize {
        usize::MAX
    }

    open spec fn spec_zst_supported() -> bool {
        false
    }

    open spec fn spec_min_align() -> Alignment {
        Alignment::spec_constant(4096)
    }

    fn max_align() -> (r: Alignment) {
        align_4_kib()
    }

    fn max_size() -> (r: usize) {
        usize::MAX
    }

    fn zst_supported() -> (r: bool) {
        false
    }

    fn min_align() -> (r: Alignment) {
        align_4_kib()
    }
}

} // verus!
