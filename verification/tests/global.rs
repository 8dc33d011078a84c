use ialloc::allocator::global::{Global, GlobalAllocStep, GlobalReallocStep};
use ialloc::layout::Layout;
use ialloc::meta::Meta;
use ialloc::util::nn::dangling;

fn layout(size: usize, align: usize) -> Layout {
    Layout::from_size_align(size, align).unwrap()
}

#[test]
fn global_alloc_decisions() {
    assert_eq!(Global::alloc_uninit(layout(0, 16)), GlobalAllocStep::Dangle(16));
    assert_eq!(Global::alloc_uninit(layout(1, 16)), GlobalAllocStep::System(layout(1, 16)));
    assert_eq!(Global::alloc_uninit(layout(isize::MAX as usize, 1)), GlobalAllocStep::System(layout(isize::MAX as usize, 1)));
    assert!(!Global::free_is_system(layout(0, 8)));
    assert!(Global::free_is_system(layout(8, 8)));
    assert_eq!(dangling(layout(0, 32)), 32);
}

#[test]
fn global_realloc_decisions() {
    assert_eq!(Global::realloc_uninit(layout(8, 8), layout(8, 8)), GlobalReallocStep::Keep);
    assert_eq!(Global::realloc_uninit(layout(8, 8), layout(24, 8)), GlobalReallocStep::System(24));
    assert_eq!(
        Global::realloc_uninit(layout(8, 8), layout(24, 16)),
        GlobalReallocStep::Move { alloc: GlobalAllocStep::System(layout(24, 16)), copy_len: 8, free_old: true },
    );
    assert_eq!(
        Global::realloc_uninit(layout(0, 8), layout(24, 8)),
        GlobalReallocStep::Move { alloc: GlobalAllocStep::System(layout(24, 8)), copy_len: 0, free_old: false },
    );
    assert_eq!(
        Global::realloc_uninit(layout(24, 8), layout(0, 8)),
        GlobalReallocStep::Move { alloc: GlobalAllocStep::Dangle(8), copy_len: 0, free_old: true },
    );
    assert_eq!(
        Global::realloc_uninit(layout(32, 4), layout(16, 8)),
        GlobalReallocStep::Move { alloc: GlobalAllocStep::System(layout(16, 8)), copy_len: 16, free_old: true },
    );
}

#[test]
fn global_limits() {
    assert_eq!(Global::max_align().get(), usize::MAX / 2 + 1);
    assert_eq!(Global::max_size(), isize::MAX as usize);
    assert!(Global::zst_supported());
}
