use ialloc::allocator::simple::bump::Bump;
use ialloc::layout::Layout;
use ialloc::meta::Meta;

fn layout(size: usize, align: usize) -> Layout {
    Layout::from_size_align(size, align).unwrap()
}

#[test]
fn bump_test_quick() {
    let base = 0x1000usize;
    let mut alloc = Bump::new(base, 4096);
    let u = alloc.alloc_uninit(layout(4, 4)).unwrap();
    let b8_1 = alloc.alloc_uninit(layout(1, 1)).unwrap();
    let b8_2 = alloc.alloc_uninit(layout(1, 1)).unwrap();
    let b8_3 = alloc.alloc_uninit(layout(1, 1)).unwrap();
    let i = alloc.alloc_uninit(layout(4, 4)).unwrap();
    let b = alloc.alloc_uninit(layout(1, 1)).unwrap();
    assert_eq!([u, b8_1, b8_2, b8_3, i, b], [base, base + 4, base + 5, base + 6, base + 8, base + 12]);
    let mut count = 6;
    while alloc.alloc_uninit(layout(1, 1)).is_ok() {
        count += 1;
    }
    assert_eq!(count, 4096 - 13 + 6);
    assert_eq!(alloc.available(), 0);
}

#[test]
fn bump_aligns_and_skips() {
    let mut alloc = Bump::new(0x1001, 64);
    assert_eq!(alloc.alloc_uninit(layout(8, 8)), Ok(0x1008));
    assert_eq!(alloc.available(), 64 - 7 - 8);
    assert_eq!(alloc.alloc_uninit(layout(1, 1)), Ok(0x1010));
    assert_eq!(alloc.alloc_uninit(layout(16, 16)), Ok(0x1020));
    assert_eq!(alloc.available(), 0x1041 - 0x1030);
    // too big: nothing changes
    assert_eq!(alloc.alloc_uninit(layout(32, 1)), Err(()));
    assert_eq!(alloc.available(), 0x11);
    // fits exactly without skipping
    assert_eq!(alloc.alloc_uninit(layout(0x11, 1)), Ok(0x1030));
    assert_eq!(alloc.available(), 0);
}

#[test]
fn bump_zero_sized_requests_dangle() {
    let mut alloc = Bump::new(0x2000, 16);
    assert_eq!(alloc.alloc_uninit(layout(0, 64)), Ok(64));
    assert_eq!(alloc.available(), 16);
    alloc.free(64, layout(0, 64));
    assert_eq!(alloc.alloc_uninit(layout(16, 1)), Ok(0x2000));
    assert_eq!(alloc.alloc_uninit(layout(1, 1)), Err(()));
}

#[test]
fn bump_skip_that_does_not_fit_fails() {
    let mut alloc = Bump::new(0x3001, 8);
    assert_eq!(alloc.alloc_uninit(layout(2, 8)), Err(()));
    assert_eq!(alloc.available(), 8);
    assert_eq!(alloc.alloc_uninit(layout(1, 8)), Ok(0x3008));
}

#[test]
fn bump_limits() {
    assert_eq!(Bump::max_align().get(), usize::MAX / 2 + 1);
    assert_eq!(Bump::max_size(), usize::MAX);
    assert!(Bump::zst_supported());
}

#[test]
fn bump_counts_outstanding_allocations() {
    let mut alloc = Bump::new(0x4000, 32);
    assert_eq!(alloc.to_debug_string(), "Bump { buffer: [...32 bytes], outstanding_allocs: 0 }");
    let a = alloc.alloc_uninit(layout(8, 8)).unwrap();
    let z = alloc.alloc_uninit(layout(0, 8)).unwrap();
    assert_eq!(alloc.outstanding_allocs(), 2);
    assert_eq!(alloc.to_debug_string(), "Bump { buffer: [...24 bytes], outstanding_allocs: 2 }");
    alloc.free(a, layout(8, 8));
    alloc.free(z, layout(0, 8));
    assert_eq!(alloc.outstanding_allocs(), 0);
    assert_eq!(alloc.available(), 24);
}

#[test]
fn bump_successive_allocations_are_disjoint() {
    let mut alloc = Bump::new(0x5003, 40);
    let a1 = alloc.alloc_uninit(layout(5, 4)).unwrap();
    let a2 = alloc.alloc_uninit(layout(8, 8)).unwrap();
    assert_eq!(a1, 0x5004);
    assert_eq!(a2, 0x5010);
    assert!(a1 + 5 <= a2);
    assert!(a2 + 8 <= 0x5003 + 40);
    assert_eq!(alloc.available(), 0x5003 + 40 - (a2 + 8));
}
