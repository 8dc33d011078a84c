use vstd::prelude::*;

verus! {

use crate::align::alignment::Alignment;
use crate::align::constants::{align_min_2_gib_max, min_2_gib_max_bytes};
use crate::layout::{Layout, padded_size};
use crate::meta::Meta;

/// The C11 aligned allocator: `aligned_alloc` and `free`.
#[derive(Clone, Copy, Debug, Default, PartialEq, Eq, PartialOrd, Ord, Hash)]
pub struct AlignedMalloc;

/// What [`AlignedMalloc::fix_layout_macos`] asks `aligned_alloc` for: alignment raised to at
/// least a pointer's size and size padded to a multiple of the alignment, or `None` when the
/// alignment exceeds 2 GiB or that layout is not valid.
pub open spec fn spec_fix_layout_macos(layout: Layout) -> Option<(int, int)> {
    let word = vstd::layout::size_of::<usize>() as int;
    let align = if word > layout.spec_align() { word } else { layout.spec_align() as int };
    if layout.spec_align() > min_2_gib_max_bytes() {
        None
    } else if vstd::layout::valid_layout(layout.spec_size(), align as usize) {
        Some((padded_size(layout.spec_size() as int, align), align))
    } else {
        None
    }
}

/// What macOS's `aligned_alloc` is asked for meets its demands and serves the request: the
/// alignment is the larger of the requested one and a pointer's size, the size is the smallest
/// multiple of that alignment holding the requested bytes; the request is given up exactly when
/// its alignment exceeds 2 GiB or that alignment makes no valid layout of the requested size.
pub proof fn lemma_fix_layout_macos_meets_aligned_alloc(layout: Layout)
    requires
        layout.spec_align() > 0,
    ensures
        spec_fix_layout_macos(layout) matches Some((size, align)) ==> {
            &&& align >= layout.spec_align()
            &&& align >= vstd::layout::size_of::<usize>()
            &&& (align == layout.spec_align() || align == vstd::layout::size_of::<usize>())
            &&& size % align == 0
            &&& layout.spec_size() <= size < layout.spec_size() + align
            &&& layout.spec_align() <= min_2_gib_max_bytes()
        },
        spec_fix_layout_macos(layout) is None <==> layout.spec_align() > min_2_gib_max_bytes()
            || !vstd::layout::valid_layout(
            layout.spec_size(),
            if vstd::layout::size_of::<usize>() > layout.spec_align() {
                vstd::layout::size_of::<usize>() as usize
            } else {
                layout.spec_align()
            },
        ),
{
    let word = vstd::layout::size_of::<usize>() as int;
    let align = if word > layout.spec_align() { word } else { layout.spec_align() as int };
    crate::layout::lemma_padded_multiple(layout.spec_size() as int, align);
}

impl AlignedMalloc {
    /// The layout handed to `aligned_alloc` for `layout`: on this target, the layout itself.
    pub fn fix_layout(layout: Layout) -> (r: Result<Layout, ()>)
        ensures
            r == Ok::<Layout, ()>(layout),
    {
        Ok(layout)
    }

    /// The layout handed to `aligned_alloc` for `layout` on macOS, whose `aligned_alloc` claims
    /// success for alignments above 2 GiB without providing them, fails for alignments below a
    /// pointer's size, and wants sizes that are multiples of the alignment.
    pub fn fix_layout_macos(layout: Layout) -> (r: Result<Layout, ()>)
        ensures
            match spec_fix_layout_macos(layout) {
                Some((size, align)) => r matches Ok(l) && l.spec_size() == size && l.spec_align() == align,
                None => r is Err,
            },
    {
        broadcast use vstd::layout::layout_of_primitives;
        proof {
            vstd::layout::usize_size_pow2();
        }
        if layout.align() > align_min_2_gib_max().get() {
            return Err(());
        }
        let word = core::mem::size_of::<usize>();
        match layout.align_to(word) {
            Err(_) => Err(()),
            Ok(l) => Ok(l.pad_to_align()),
        }
    }
}

impl Meta for AlignedMalloc {
    open spec fn spec_max_align() -> Alignment {
        Alignment::spec_maximum()
    }

    open spec fn spec_max_size() -> usize {
        usize::MAX
    }

    open spec fn spec_zst_supported() -> bool {
        false
    }

    open spec fn spec_min_align() -> Alignment {
        Alignment::spec_constant(1)
    }

    fn max_align() -> (r: Alignment) {
        Alignment::maximum()
    }

    fn max_size() -> (r: usize) {
        usize::MAX
    }

    fn zst_supported() -> (r: bool) {
        false
    }

    fn min_align() -> (r: Alignment) {
        Alignment::minimum()
    }
}

} // verus!
