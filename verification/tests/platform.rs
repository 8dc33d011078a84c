use ialloc::allocator::c::aligned_malloc::AlignedMalloc;
use ialloc::allocator::c::malloc::Malloc;
use ialloc::allocator::cpp::new_delete::NewDelete;
use ialloc::allocator::cpp::new_delete_aligned::NewDeleteAligned;
use ialloc::allocator::cpp::new_delete_array::NewDeleteArray;
use ialloc::allocator::cpp::new_delete_array_aligned::NewDeleteArrayAligned;
use ialloc::allocator::cpp::std_allocator::StdAllocator;
use ialloc::allocator::debug::null::Null;
use ialloc::allocator::win32::cotaskmem::{CoTaskMem, CoTaskMemReallocStep};
use ialloc::allocator::win32::cryptmem::CryptMem;
use ialloc::allocator::win32::global::Global as Win32Global;
use ialloc::allocator::win32::heap::{heap_create_arguments, ProcessHeap};
use ialloc::allocator::win32::imalloc::{did_alloc_from_result, realloc_size};
use ialloc::allocator::win32::local::Local;
use ialloc::allocator::win32::virtual_::VirtualCommit;
use ialloc::allocator::win32::{memory_allocation_alignment, size_from_heap_query, size_from_query};
use ialloc::layout::Layout;
use ialloc::meta::Meta;

#[test]
fn null_never_allocates() {
    let l = Layout::from_size_align(8, 8).unwrap();
    assert_eq!(Null.alloc_uninit(0), Err(()));
    assert_eq!(Null.alloc_zeroed(16), Err(()));
    assert_eq!(Null.realloc_uninit(0x1000, 16), Err(()));
    assert_eq!(Null.realloc_zeroed(0x1000, 16), Err(()));
    assert_eq!(Null.fat_alloc_uninit(l), Err(()));
    assert_eq!(Null.fat_alloc_zeroed(l), Err(()));
    assert_eq!(Null.fat_realloc_uninit(0x1000, l, l), Err(()));
    assert_eq!(Null.fat_realloc_zeroed(0x1000, l, l), Err(()));
    assert!(Null::zst_supported());
    assert_eq!(Null::max_size(), usize::MAX);
    assert_eq!(Null::max_align().get(), usize::MAX / 2 + 1);
}

#[test]
fn c_allocators() {
    assert_eq!(Malloc::max_align().get(), core::mem::align_of::<libc::max_align_t>());
    assert_eq!(Malloc::min_align().get(), 1);
    assert!(!Malloc::zst_supported());
    assert_eq!(Malloc::max_size(), usize::MAX);
    assert!(!Malloc::can_realloc_zeroed());
    assert_eq!(Malloc.realloc_zeroed(0x1000, 8), Err(()));
    assert_eq!(Malloc.size_of_debug(0x1000), None);
    let l = Layout::from_size_align(3, 2).unwrap();
    assert_eq!(AlignedMalloc::fix_layout(l), Ok(l));
    assert!(!AlignedMalloc::zst_supported());
    assert_eq!(AlignedMalloc::max_align().get(), usize::MAX / 2 + 1);
}

#[test]
fn aligned_malloc_macos_layouts() {
    let word = core::mem::size_of::<usize>();
    let l = AlignedMalloc::fix_layout_macos(Layout::from_size_align(1, 1).unwrap()).unwrap();
    assert_eq!((l.size(), l.align()), (word, word));
    let l = AlignedMalloc::fix_layout_macos(Layout::from_size_align(17, 16).unwrap()).unwrap();
    assert_eq!((l.size(), l.align()), (32, 16));
    let l = AlignedMalloc::fix_layout_macos(Layout::from_size_align(0, 8).unwrap()).unwrap();
    assert_eq!((l.size(), l.align()), (0, 8));
    if usize::BITS == 64 {
        let big = Layout::from_size_align(1, 1usize << 32).unwrap();
        assert_eq!(AlignedMalloc::fix_layout_macos(big), Err(()));
        let ok = Layout::from_size_align(1, 1usize << 31).unwrap();
        assert_eq!(AlignedMalloc::fix_layout_macos(ok).map(|l| l.size()), Ok(1usize << 31));
    }
}

#[test]
fn cpp_allocators() {
    assert_eq!(NewDelete::max_align().get(), core::mem::align_of::<f64>());
    assert_eq!(NewDeleteArray::max_align().get(), core::mem::align_of::<f64>());
    assert!(!NewDelete::zst_supported());
    assert!(!NewDeleteArray::zst_supported());
    assert_eq!(NewDeleteAligned::max_align().get(), usize::MAX / 2 + 1);
    assert_eq!(NewDeleteArrayAligned::max_align().get(), usize::MAX / 2 + 1);
    assert!(!NewDeleteAligned::zst_supported());
    assert!(!NewDeleteArrayAligned::zst_supported());
    assert_eq!(NewDeleteAligned::max_size(), usize::MAX);
    let alloc = StdAllocator::<u8>::new();
    assert!(alloc == StdAllocator::<u8>::default());
    assert!(alloc.clone() == alloc);
    assert_eq!(StdAllocator::<u8>::max_align().get(), 1);
    assert_eq!(StdAllocator::<u32>::max_align().get(), core::mem::align_of::<u32>());
    assert!(!StdAllocator::<u8>::zst_supported());
}

#[test]
fn win32_allocators() {
    let maa = 2 * core::mem::size_of::<usize>();
    assert_eq!(memory_allocation_alignment().get(), maa);
    assert_eq!(CoTaskMem::max_align().get(), maa);
    assert_eq!(Win32Global::max_align().get(), maa);
    assert_eq!(Local::max_align().get(), maa);
    assert_eq!(ProcessHeap::max_align().get(), maa);
    assert_eq!(CryptMem::max_size(), u32::MAX as usize);
    assert!(CryptMem::zst_supported());
    assert_eq!(VirtualCommit::max_align().get(), 4096);
    assert_eq!(VirtualCommit::min_align().get(), 4096);
    assert_eq!(CoTaskMem::min_align().get(), maa);
    assert_eq!(Local::min_align().get(), maa);
    assert!(!VirtualCommit::zst_supported());
    assert_eq!(CoTaskMem::realloc_step(0), CoTaskMemReallocStep::AllocThenFree);
    assert_eq!(CoTaskMem::realloc_step(9), CoTaskMemReallocStep::Realloc(9));
    assert_eq!(CoTaskMem::finish_alloc_then_free(0), (Err(()), false));
    assert_eq!(CoTaskMem::finish_alloc_then_free(0x1000), (Ok(0x1000), true));
    assert_eq!(CoTaskMem::finish_realloc(0), Err(()));
    assert_eq!(CoTaskMem::finish_realloc(0x2000), Ok(0x2000));
    assert_eq!(CoTaskMem.realloc_zeroed(0x1000, 1), Err(()));
    assert_eq!(CryptMem.realloc_zeroed(0x1000, 1), Err(()));
    assert_eq!(CryptMem::checked_size(12), Ok(12));
    assert_eq!(CryptMem::checked_size(u32::MAX as usize), Ok(u32::MAX));
    if usize::BITS == 64 {
        assert_eq!(CryptMem::checked_size(u32::MAX as usize + 1), Err(()));
    }
}

#[test]
fn win32_queries() {
    assert_eq!(size_from_query(0, 0), Some(0));
    assert_eq!(size_from_query(0, 6), None);
    assert_eq!(size_from_query(24, 6), Some(24));
    assert_eq!(size_from_heap_query(usize::MAX), None);
    assert_eq!(size_from_heap_query(40), Some(40));
    assert_eq!(did_alloc_from_result(1), Some(true));
    assert_eq!(did_alloc_from_result(0), Some(false));
    assert_eq!(did_alloc_from_result(-1), None);
    assert_eq!(did_alloc_from_result(7), None);
    assert_eq!(realloc_size(0), 1);
    assert_eq!(realloc_size(5), 5);
    assert_eq!(heap_create_arguments(0, None, Some(1 << 20)), (0, 0, 1 << 20));
    assert_eq!(heap_create_arguments(0x40000, Some(4096), None), (0x40000, 4096, 0));
}
