use vstd::prelude::*;

verus! {

use crate::align::alignment::Alignment;
use crate::meta::Meta;

/// C++17 `::operator new(size_t, align_val_t, nothrow_t)` and
/// `::operator delete(void*, align_val_t)`.
#[derive(Clone, Copy, Debug, Default, PartialEq, Eq, PartialOrd, Ord, Hash)]
pub struct NewDeleteAligned;

impl Meta for NewDeleteAligned {
    open spec fn spec_max_align() -> Alignment {
        Alignment::spec_maximum()
    }

    open spec fn spec_max_size() -> usize {
        usize::MAX
    }

    open spec fn spec_zst_supported() -> bool {
        false
    }

    open spec fn spec_min_align() -> Alignment {
        Alignment::spec_constant(1)
    }

    fn max_align() -> (r: Alignment) {
        Alignment::maximum()
    }

    fn max_size() -> (r: usize) {
        usize::MAX
    }

    fn zst_supported() -> (r: bool) {
        false
    }

    fn min_align() -> (r: Alignment) {
        Alignment::minimum()
    }
}

} // verus!
