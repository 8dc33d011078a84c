//! Error types.

use vstd::prelude::*;

verus! {

use crate::align::alignment::Alignment;

/// The size and alignment given to build a [`Layout`](crate::layout::Layout) do not form a valid layout.
#[derive(Clone, Copy, PartialEq, Eq, Hash, Debug)]
pub struct LayoutError;

/// An allocation asked for more alignment than the allocator supports.
#[derive(Clone, Copy, PartialEq, Eq, Hash, Debug)]
pub struct ExcessiveAlignmentRequestedError {
    pub requested: Alignment,
    pub supported: Alignment,
}

} // verus!
