use ialloc::align::alignment::Alignment;
use ialloc::allocator::adapt::alloc_zst::AllocZst;
use ialloc::allocator::adapt::dangle_zst::{DangleZst, FatAllocStep, FatReallocStep, ThinAllocStep, ThinReallocStep};
use ialloc::allocator::adapt::panic_over_align::{assert_valid_alignment, check_alignment, freed_old_alignment, PanicOverAlign};
use ialloc::allocator::c::malloc::Malloc;
use ialloc::allocator::global::Global;
use ialloc::error::ExcessiveAlignmentRequestedError;
use ialloc::layout::Layout;
use ialloc::meta::Meta;

fn layout(size: usize, align: usize) -> Layout {
    Layout::from_size_align(size, align).unwrap()
}

#[test]
fn alloc_zst_grows_zero_sizes_only_when_needed() {
    assert_eq!(AllocZst::<Malloc>::fix_thin_size(0), 1);
    assert_eq!(AllocZst::<Malloc>::fix_thin_size(1), 1);
    assert_eq!(AllocZst::<Malloc>::fix_thin_size(37), 37);
    assert_eq!(AllocZst::<Global>::fix_thin_size(0), 0);
}

#[test]
fn alloc_zst_fix_layout() {
    let fixed = AllocZst::<Malloc>::fix_layout(layout(0, 64)).unwrap();
    assert_eq!((fixed.size(), fixed.align()), (1, 64));
    assert_eq!(AllocZst::<Malloc>::fix_layout(layout(5, 8)), Ok(layout(5, 8)));
    assert_eq!(AllocZst::<Global>::fix_layout(layout(0, 8)), Ok(layout(0, 8)));
    let max = Alignment::maximum().get();
    assert_eq!(
        AllocZst::<Malloc>::fix_layout(layout(0, max)),
        Err(ExcessiveAlignmentRequestedError { requested: Alignment::maximum(), supported: Alignment::new(max / 2).unwrap() }),
    );
    assert!(AllocZst::<Malloc>::zst_supported());
    assert_eq!(AllocZst::<Malloc>::max_align(), Malloc::max_align());
    assert_eq!(AllocZst::<Malloc>::max_size(), Malloc::max_size());
}

#[test]
fn dangle_zst_thin_decisions() {
    type D = DangleZst<Malloc>;
    let dangle = Malloc::max_align().get();
    assert_eq!(D::dangle(), dangle);
    assert_eq!(D::thin_alloc_uninit(0), ThinAllocStep::Dangle(dangle));
    assert_eq!(D::thin_alloc_uninit(3), ThinAllocStep::Inner(3));
    assert!(!D::thin_free_is_inner(dangle));
    assert!(D::thin_free_is_inner(0x1000));
    assert_eq!(D::thin_realloc_uninit(dangle, 8), ThinReallocStep::AllocUninit(8));
    assert_eq!(D::thin_realloc_uninit(0x1000, 0), ThinReallocStep::FreeThenDangle(dangle));
    assert_eq!(D::thin_realloc_uninit(0x1000, 8), ThinReallocStep::ReallocUninit(8));
    assert_eq!(D::thin_realloc_zeroed(dangle, 8), ThinReallocStep::AllocZeroed(8));
    assert_eq!(D::thin_realloc_zeroed(0x1000, 0), ThinReallocStep::FreeThenDangle(dangle));
    assert_eq!(D::thin_realloc_zeroed(0x1000, 8), ThinReallocStep::ReallocZeroed(8));
    assert_eq!(D::thin_realloc_uninit(dangle, 0), ThinReallocStep::Dangle(dangle));
    assert_eq!(D::thin_realloc_zeroed(dangle, 0), ThinReallocStep::Dangle(dangle));
}

#[test]
fn dangle_zst_fat_decisions() {
    type D = DangleZst<Malloc>;
    let dangle = D::dangle();
    assert_eq!(D::fat_alloc(layout(4, 4)), FatAllocStep::Inner(layout(4, 4)));
    assert_eq!(D::fat_alloc(layout(0, 4)), FatAllocStep::Dangle(dangle));
    assert_eq!(dangle % 4, 0);
    assert_eq!(
        D::fat_alloc(layout(0, 4096)),
        FatAllocStep::Refuse(ExcessiveAlignmentRequestedError { requested: Alignment::new(4096).unwrap(), supported: Malloc::max_align() }),
    );
    assert!(D::fat_free_is_inner(0x1000, layout(4, 4)));
    assert!(!D::fat_free_is_inner(dangle, layout(0, 4)));
    assert_eq!(D::fat_realloc(0x1000, layout(4, 4), layout(8, 4)), FatReallocStep::Inner);
    assert_eq!(
        D::fat_realloc(dangle, layout(0, 4), layout(8, 4)),
        FatReallocStep::Move { alloc: FatAllocStep::Inner(layout(8, 4)), copy_len: 0, free_old: false },
    );
    assert_eq!(
        D::fat_realloc(0x1000, layout(8, 4), layout(0, 4)),
        FatReallocStep::Move { alloc: FatAllocStep::Dangle(dangle), copy_len: 0, free_old: true },
    );
    assert!(D::zst_supported());
    assert_eq!(D::min_align(), Malloc::min_align());
}

#[test]
fn panic_over_align_forwards_supported_requests() {
    assert_valid_alignment(8, 16);
    assert_valid_alignment(16, 16);
    freed_old_alignment(1, 16);
    type P = PanicOverAlign<Malloc>;
    assert_eq!(P::alloc_layout(layout(3, 8)), layout(3, 8));
    assert_eq!(P::realloc_layouts(layout(3, 8), layout(9, 1)), (layout(3, 8), layout(9, 1)));
    assert_eq!(P::max_align(), Malloc::max_align());
    assert_eq!(P::zst_supported(), Malloc::zst_supported());
    assert_eq!(P::max_size(), Malloc::max_size());
}

#[test]
fn adapters_deref_to_the_wrapped_allocator() {
    let a = AllocZst(Malloc);
    let d = DangleZst(Malloc);
    let p = PanicOverAlign(Malloc);
    assert_eq!(*a, Malloc);
    assert_eq!(*d, Malloc);
    assert_eq!(*p, Malloc);
}

#[test]
fn dangle_zst_refused_realloc_keeps_the_old_block() {
    type D = DangleZst<Malloc>;
    let dangle = D::dangle();
    let error = ExcessiveAlignmentRequestedError { requested: Alignment::new(4096).unwrap(), supported: Malloc::max_align() };
    assert_eq!(D::fat_realloc(0x1000, layout(8, 4), layout(0, 4096)), FatReallocStep::Refuse(error));
    assert_eq!(D::fat_realloc(dangle, layout(0, 4), layout(0, 4096)), FatReallocStep::Refuse(error));
    assert_eq!(
        D::fat_realloc(dangle, layout(0, 4), layout(0, 8)),
        FatReallocStep::Move { alloc: FatAllocStep::Dangle(dangle), copy_len: 0, free_old: false },
    );
    assert_eq!(
        D::fat_realloc(0x1000, layout(24, 8), layout(0, 8)),
        FatReallocStep::Move { alloc: FatAllocStep::Dangle(dangle), copy_len: 0, free_old: true },
    );
}

#[test]
fn panic_over_align_checks_alignment_at_run_time() {
    let a8 = Alignment::new(8).unwrap();
    let a16 = Alignment::new(16).unwrap();
    assert_eq!(check_alignment(a8, a16), Ok(()));
    assert_eq!(check_alignment(a16, a16), Ok(()));
    assert_eq!(check_alignment(a16, a8), Err(ExcessiveAlignmentRequestedError { requested: a16, supported: a8 }));
    type P = PanicOverAlign<Malloc>;
    assert_eq!(P::check_layout(layout(3, 8)), Ok(layout(3, 8)));
    assert_eq!(
        P::check_layout(layout(3, 4096)),
        Err(ExcessiveAlignmentRequestedError { requested: Alignment::new(4096).unwrap(), supported: Malloc::max_align() }),
    );
}
