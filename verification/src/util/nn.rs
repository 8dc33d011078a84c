//! Addresses that need no allocation.

use vstd::prelude::*;

verus! {

use crate::layout::Layout;

/// The address handed out for zero-sized requests of `layout`: its alignment, which is never
/// null and is trivially aligned.
pub fn dangling(layout: Layout) -> (r: usize)
    ensures
        r == layout.spec_align(),
        r > 0,
        r % layout.spec_align() == 0,
{
    layout.align()
}

} // verus!
