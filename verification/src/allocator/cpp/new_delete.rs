use vstd::prelude::*;

verus! {

use crate::align::alignment::Alignment;
use crate::meta::Meta;

/// C++ `::operator new(size_t, nothrow_t)` and `::operator delete(void*)`.
///
/// Guarantees the alignment of a `double`, which matches that of a `u64`.
#[derive(Clone, Copy, Debug, Default, PartialEq, Eq, PartialOrd, Ord, Hash)]
pub struct NewDelete;

impl Meta for NewDelete {
    open spec fn spec_max_align() -> Alignment {
        Alignment::spec_of::<u64>()
    }

    open spec fn spec_max_size() -> usize {
        usize::MAX
    }

    open spec fn spec_zst_supported() -> bool {
        false
    }

    open spec fn spec_min_align() -> Alignment {
        Alignment::spec_constant(1)
    }

    fn max_align() -> (r: Alignment) {
        Alignment::of::<u64>()
    }

    fn max_size() -> (r: usize) {
        usize::MAX
    }

    fn zst_supported() -> (r: bool) {
        false
    }

    fn min_align() -> (r: Alignment) {
        Alignment::minimum()
    }
}

} // verus!
