use ialloc::align::alignment::Alignment;
use ialloc::allocator::c::malloc::Malloc;
use ialloc::allocator::global::Global;
use ialloc::auto::nzst_to_zsty::{alloc_step, free_is_inner, realloc_step, ZstyAllocStep, ZstyReallocStep};
use ialloc::error::ExcessiveAlignmentRequestedError;
use ialloc::fat_from_thin::{alloc_size, global_alloc_realloc_layout, realloc_size, zero_fill_range};
use ialloc::layout::Layout;
use ialloc::meta::Meta;

fn layout(size: usize, align: usize) -> Layout {
    Layout::from_size_align(size, align).unwrap()
}

#[test]
fn fat_requests_on_thin_allocators() {
    let max = Malloc::max_align().get();
    assert_eq!(alloc_size::<Malloc>(layout(10, max)), Ok(10));
    assert_eq!(alloc_size::<Malloc>(layout(0, 1)), Ok(0));
    assert_eq!(
        alloc_size::<Malloc>(layout(10, max * 2)),
        Err(ExcessiveAlignmentRequestedError { requested: Alignment::new(max * 2).unwrap(), supported: Malloc::max_align() }),
    );
    assert_eq!(alloc_size::<Global>(layout(10, 1 << 20)), Ok(10));
    assert_eq!(realloc_size::<Malloc>(layout(4, 4), layout(40, 8)), Ok(40));
    assert!(realloc_size::<Malloc>(layout(4, 4), layout(40, 4096)).is_err());
}

#[test]
fn zeroing_emulation_covers_added_bytes() {
    assert_eq!(zero_fill_range(4, 16), Some((4, 16)));
    assert_eq!(zero_fill_range(16, 16), None);
    assert_eq!(zero_fill_range(16, 4), None);
}

#[test]
fn global_alloc_realloc_keeps_alignment() {
    let l = global_alloc_realloc_layout(layout(8, 16), 100).unwrap();
    assert_eq!((l.size(), l.align()), (100, 16));
    assert!(global_alloc_realloc_layout(layout(8, 16), isize::MAX as usize).is_none());
}

#[test]
fn zero_sized_requests_on_nonzero_allocators() {
    assert_eq!(alloc_step(layout(0, 32)), ZstyAllocStep::Dangle(32));
    assert_eq!(alloc_step(layout(1, 32)), ZstyAllocStep::Inner(layout(1, 32)));
    assert!(!free_is_inner(32, layout(0, 32)));
    assert!(free_is_inner(0x1000, layout(1, 32)));
    assert_eq!(realloc_step(8, layout(0, 8), layout(4, 4)), ZstyReallocStep::Alloc(layout(4, 4)));
    assert_eq!(realloc_step(8, layout(0, 8), layout(0, 4)), ZstyReallocStep::Dangle(4));
    assert_eq!(realloc_step(0x1000, layout(8, 8), layout(4, 4)), ZstyReallocStep::Realloc);
    assert_eq!(realloc_step(0x1000, layout(8, 8), layout(0, 16)), ZstyReallocStep::FreeThenDangle(16));
}
