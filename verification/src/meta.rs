//! What an allocator promises about the requests it can serve.

use vstd::prelude::*;

verus! {

use crate::align::alignment::Alignment;

/// Limits and capabilities of an allocator.
pub trait Meta {
    /// The largest alignment the allocator guarantees.
    spec fn spec_max_align() -> Alignment;

    /// The largest size the allocator may serve.
    spec fn spec_max_size() -> usize;

    /// Whether zero-sized requests are served.
    spec fn spec_zst_supported() -> bool;

    /// The alignment every allocation has at least: `1` unless the allocator promises more.
    spec fn spec_min_align() -> Alignment;

    /// The largest alignment the allocator guarantees.
    fn max_align() -> (r: Alignment)
        ensures
            r == Self::spec_max_align(),
    ;

    /// The largest size the allocator may serve.
    fn max_size() -> (r: usize)
        ensures
            r == Self::spec_max_size(),
    ;

    /// Whether zero-sized requests are served.
    fn zst_supported() -> (r: bool)
        ensures
            r == Self::spec_zst_supported(),
    ;

    /// The alignment every allocation has at least.
    fn min_align() -> (r: Alignment)
        ensures
            r == Self::spec_min_align(),
    ;
}

} // verus!
