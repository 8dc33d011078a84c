use ialloc::allocator::simple::fixed_pool::{FixedPoolLinearProbe, State};
use ialloc::meta::Meta;

#[test]
fn fixed_pool_test_quick() {
    let mut pool = FixedPoolLinearProbe::<4, 4, 1024>::new();
    let mut next = 0_u32;
    for _ in 0..10 {
        assert!(pool.alloc_uninit(core::mem::size_of::<[u8; 8]>()).is_err(), "element too big to fit in pool");
        let integers = [(); 1024].map(|_| {
            next += 1;
            pool.alloc_uninit(core::mem::size_of::<u32>()).unwrap()
        });
        assert!(pool.alloc_uninit(core::mem::size_of::<u32>()).is_err(), "pool out of elements");
        for slot in integers {
            pool.free(slot);
        }
    }
    assert_eq!(next, 10 * 1024);
}

#[test]
fn fixed_pool_probes_from_the_last_slot_handed_out() {
    let mut pool = FixedPoolLinearProbe::<8, 16, 4>::new();
    assert_eq!(pool.alloc_uninit(16), Ok(0));
    assert_eq!(pool.alloc_uninit(1), Ok(1));
    assert_eq!(pool.alloc_uninit(0), Ok(2));
    pool.free(0);
    // probing continues after slot 2, then wraps around to the freed slot 0
    assert_eq!(pool.alloc_uninit(8), Ok(3));
    assert_eq!(pool.alloc_uninit(8), Ok(0));
    assert_eq!(pool.alloc_uninit(8), Err(()));
    pool.free(1);
    assert_eq!(pool.alloc_uninit(17), Err(()));
    assert_eq!(pool.alloc_uninit(4), Ok(1));
}

#[test]
fn fixed_pool_realloc_stays_in_place() {
    let mut pool = FixedPoolLinearProbe::<4, 4, 2>::new();
    let slot = pool.alloc_uninit(2).unwrap();
    assert_eq!(pool.realloc_uninit(slot, 4), Ok(slot));
    assert_eq!(pool.realloc_uninit(slot, 5), Err(()));
    assert_eq!(pool.realloc_zeroed(slot, 1), Err(()));
}

#[test]
fn fixed_pool_limits() {
    type Pool = FixedPoolLinearProbe<64, 128, 3>;
    assert_eq!(Pool::max_align().get(), 64);
    assert_eq!(Pool::max_size(), 128);
    assert!(Pool::zst_supported());
}

#[test]
fn fixed_pool_debug_and_states() {
    let mut pool = FixedPoolLinearProbe::<4, 4, 1024>::new();
    assert_eq!(pool.to_debug_string(), "FixedBool<4, 4, 1024> { ... }");
    let slot = pool.alloc_uninit(4).unwrap();
    assert_eq!(pool.state_of(slot), State::Allocated);
    assert_eq!(pool.state_of(slot + 1), State::Free);
    pool.free(slot);
    assert_eq!(pool.state_of(slot), State::Free);
}

#[test]
fn fixed_pool_default_is_empty() {
    let mut pool: FixedPoolLinearProbe<2, 2, 2> = Default::default();
    assert_eq!(pool.alloc_uninit(2), Ok(0));
    assert_eq!(pool.alloc_uninit(2), Ok(1));
    assert_eq!(pool.alloc_uninit(2), Err(()));
}

#[test]
fn fixed_pool_slot_offsets() {
    type Pool = FixedPoolLinearProbe<8, 12, 5>;
    assert_eq!(Pool::element_size(), 16);
    assert_eq!(FixedPoolLinearProbe::<4, 4, 1024>::element_size(), 4);
    assert_eq!(FixedPoolLinearProbe::<64, 1, 2>::element_size(), 64);
    assert_eq!(Pool::slot_offset(0), 0);
    assert_eq!(Pool::slot_offset(3), 48);
    let pool = Pool::new();
    assert_eq!(pool.live_or_dead_index_of(48), 3);
    assert_eq!(pool.live_or_dead_index_of(Pool::slot_offset(4)), 4);
    assert_eq!(Pool::min_align().get(), 1);
}
