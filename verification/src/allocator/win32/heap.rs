use vstd::prelude::*;

verus! {

use crate::align::alignment::Alignment;
use crate::align::constants::two_pointer_bytes;
use crate::allocator::win32::memory_allocation_alignment;
use crate::meta::Meta;

/// `HeapAlloc`, `HeapReAlloc`, `HeapFree`, `HeapSize` on the heap of the process
/// (`GetProcessHeap`).
#[derive(Clone, Copy, Debug, Default, PartialEq, Eq, PartialOrd, Ord, Hash)]
pub struct ProcessHeap;

impl Meta for ProcessHeap {
    open spec fn spec_max_align() -> Alignment {
        Alignment::spec_constant(two_pointer_bytes())
    }

    open spec fn spec_max_size() -> usize {
        usize::MAX
    }

    open spec fn spec_zst_supported() -> bool {
        true
    }

    open spec fn spec_min_align() -> Alignment {
        Alignment::spec_constant(two_pointer_bytes())
    }

    fn max_align() -> (r: Alignment) {
        memory_allocation_alignment()
    }

    fn max_size() -> (r: usize) {
        usize::MAX
    }

    fn zst_supported() -> (r: bool) {
        true
    }

    fn min_align() -> (r: Alignment) {
        memory_allocation_alignment()
    }
}

/// `HEAP_NO_SERIALIZE`: forbidden for heaps shared between threads.
pub const HEAP_NO_SERIALIZE: u32 = 0x1;

/// `HEAP_GENERATE_EXCEPTIONS`: forbidden, as structured exceptions cannot unwind through Rust.
pub const HEAP_GENERATE_EXCEPTIONS: u32 = 0x4;

/// The arguments `HeapCreate` receives when creating a heap shared between threads with
/// `options` and optional initial and maximum sizes: an absent size is passed as `0`.  Neither
/// `HEAP_NO_SERIALIZE` nor `HEAP_GENERATE_EXCEPTIONS` may be among the options.
pub fn heap_create_arguments(options: u32, initial_size: Option<usize>, maximum_size: Option<usize>) -> (r: (u32, usize, usize))
    requires
        options & HEAP_NO_SERIALIZE == 0,
        options & HEAP_GENERATE_EXCEPTIONS == 0,
    ensures
        r.0 == options,
        r.1 == match initial_size { Some(s) => s, None => 0 },
        r.2 == match maximum_size { Some(s) => s, None => 0 },
{
    let initial = match initial_size { Some(s) => s, None => 0 };
    let maximum = match maximum_size { Some(s) => s, None => 0 };
    (options, initial, maximum)
}

} // verus!
