use vstd::prelude::*;

verus! {

/// What `IMalloc::DidAlloc` answers: `1` if the block was allocated by this allocator, `0` if
/// not, and anything else (`-1`) if it cannot tell.
pub fn did_alloc_from_result(result: i32) -> (r: Option<bool>)
    ensures
        r == if result == 1 { Some(true) } else if result == 0 { Some(false) } else { None::<bool> },
{
    if result == 1 {
        Some(true)
    } else if result == 0 {
        Some(false)
    } else {
        None
    }
}

/// The size passed to `IMalloc::Realloc`, which frees on a zero size: at least one byte.
pub fn realloc_size(new_size: usize) -> (r: usize)
    ensures
        r == if new_size == 0 { 1 } else { new_size },
{
    if new_size == 0 { 1 } else { new_size }
}

} // verus!
