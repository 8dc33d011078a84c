use ialloc::layout::Layout;

#[test]
fn layout_from_size_align_checks_the_layout_conditions() {
    assert!(Layout::from_size_align(0, 1).is_ok());
    assert!(Layout::from_size_align(16, 0).is_err());
    assert!(Layout::from_size_align(16, 3).is_err());
    assert!(Layout::from_size_align(isize::MAX as usize, 1).is_ok());
    assert!(Layout::from_size_align(isize::MAX as usize + 1, 1).is_err());
    assert!(Layout::from_size_align(isize::MAX as usize, 2).is_err());
    assert!(Layout::from_size_align(isize::MAX as usize - 1, 2).is_ok());
    let l = Layout::from_size_align(24, 8).unwrap();
    assert_eq!((l.size(), l.align()), (24, 8));
    assert_eq!(l.alignment().get(), 8);
}

#[test]
fn layout_agrees_with_core() {
    for size in [0usize, 1, 7, 8, 100, 4096, isize::MAX as usize - 64, isize::MAX as usize] {
        for align in [0usize, 1, 2, 3, 8, 64, 4096, 1 << 20] {
            let ours = Layout::from_size_align(size, align);
            let theirs = core::alloc::Layout::from_size_align(size, align);
            assert_eq!(ours.is_ok(), theirs.is_ok(), "size {size} align {align}");
            if let (Ok(ours), Ok(theirs)) = (ours, theirs) {
                let padded = ours.pad_to_align();
                assert_eq!(padded.size(), theirs.pad_to_align().size());
                assert_eq!(padded.align(), theirs.align());
                for to in [0usize, 1, 3, 16, 8192] {
                    let a = ours.align_to(to).map(|l| (l.size(), l.align())).ok();
                    let b = theirs.align_to(to).map(|l| (l.size(), l.align())).ok();
                    assert_eq!(a, b, "size {size} align {align} to {to}");
                }
            }
        }
    }
}

#[test]
fn layout_pad_to_align_rounds_up() {
    let l = Layout::from_size_align(13, 8).unwrap().pad_to_align();
    assert_eq!((l.size(), l.align()), (16, 8));
    let l = Layout::from_size_align(16, 8).unwrap().pad_to_align();
    assert_eq!(l.size(), 16);
    let l = Layout::from_size_align(0, 4096).unwrap().pad_to_align();
    assert_eq!(l.size(), 0);
}
