use vstd::prelude::*;

verus! {

use crate::align::alignment::Alignment;
use crate::align::constants::two_pointer_bytes;
use crate::allocator::win32::memory_allocation_alignment;
use crate::meta::Meta;

/// `CryptMemAlloc`, `CryptMemRealloc`, `CryptMemFree`.
#[derive(Clone, Copy, Debug, Default, PartialEq, Eq, PartialOrd, Ord, Hash)]
pub struct CryptMem;

impl CryptMem {
    /// The size passed to `CryptMemAlloc` / `CryptMemRealloc`, which take a 32-bit size: sizes
    /// that do not fit are refused.
    pub fn checked_size(size: usize) -> (r: Result<u32, ()>)
        ensures
            r is Ok <==> size <= u32::MAX,
            r matches Ok(s) ==> s == size,
    {
        if size <= u32::MAX as usize {
            Ok(size as u32)
        } else {
            Err(())
        }
    }

    /// Zeroing reallocation is not offered: always fails.
    pub fn realloc_zeroed(&self, ptr: usize, new_size: usize) -> (r: Result<usize, ()>)
        ensures
            r is Err,
    {
        let _ = (ptr, new_size);
        Err(())
    }
}

impl Meta for CryptMem {
    open spec fn spec_max_align() -> Alignment {
        Alignment::spec_constant(two_pointer_bytes())
    }

    open spec fn spec_max_size() -> usize {
        u32::MAX as usize
    }

    open spec fn spec_zst_supported() -> bool {
        true
    }

    open spec fn spec_min_align() -> Alignment {
        Alignment::spec_constant(two_pointer_bytes())
    }

    fn max_align() -> (r: Alignment) {
        memory_allocation_alignment()
    }

    fn max_size() -> (r: usize) {
        u32::MAX as usize
    }

    fn zst_supported() -> (r: bool) {
        true
    }

    fn min_align() -> (r: Alignment) {
        memory_allocation_alignment()
    }
}

} // verus!
