use ialloc::align::alignment::{is_power_of_two, Alignment};
use ialloc::align::alignn::{AlignN, ByAlign};
use ialloc::align::constants::{align_4_kib, align_min_2_gib_max, two_pointer_alignment};
use ialloc::util::bytes::pretty;

#[test]
fn alignment_debug() {
    let pp = |align: usize| pretty(Alignment::new(align).unwrap().as_usize());
    assert_eq!("16 B", pp(16));
    assert_eq!("16 KiB", pp(16 << 10));
    if usize::BITS >= 32 {
        assert_eq!("16 MiB", pp(16 << 20));
    }
    if usize::BITS >= 64 {
        let big = |shift: u32| pp(16usize.checked_shl(shift).unwrap());
        assert_eq!("16 GiB", big(30));
        assert_eq!("16 TiB", big(40));
        assert_eq!("16 PiB", big(50));
    }
}

#[test]
fn alignment_new_accepts_exactly_powers_of_two() {
    for n in 0..=4096usize {
        assert_eq!(Alignment::new(n).is_some(), n.is_power_of_two(), "n = {n}");
        assert_eq!(is_power_of_two(n), n.is_power_of_two(), "n = {n}");
    }
    assert!(Alignment::new(usize::MAX).is_none());
    assert!(Alignment::new(usize::MAX / 2 + 1).is_some());
    assert!(Alignment::new(usize::MAX / 2 + 2).is_none());
}

#[test]
fn alignment_round_trips_its_value() {
    for shift in 0..usize::BITS {
        let n = 1usize << shift;
        let a = Alignment::new(n).unwrap();
        assert_eq!(a.get(), n);
        assert_eq!(a.as_usize(), n);
        assert_eq!(Alignment::new(a.get()), Some(a));
        assert_eq!(Alignment::try_from_usize(n), Some(a));
    }
}

#[test]
fn alignment_extremes() {
    assert_eq!(Alignment::minimum().get(), 1);
    assert_eq!(Alignment::maximum().get(), usize::MAX / 2 + 1);
    assert_eq!(Alignment::of::<u64>().get(), core::mem::align_of::<u64>());
    assert_eq!(Alignment::of::<u8>().get(), 1);
    assert_eq!(Alignment::constant(64).get(), 64);
}

#[test]
fn alignment_constants() {
    assert_eq!(two_pointer_alignment().get(), 2 * core::mem::size_of::<usize>());
    assert_eq!(align_4_kib().get(), 4096);
    if usize::BITS == 64 {
        assert_eq!(align_min_2_gib_max().get(), 1 << 31);
    }
}

#[test]
fn pretty_uses_the_largest_dividing_unit() {
    assert_eq!(pretty(0), "0 B");
    assert_eq!(pretty(1), "1 B");
    assert_eq!(pretty(1023), "1023 B");
    assert_eq!(pretty(1024), "1 KiB");
    assert_eq!(pretty(1536), "1536 B");
    assert_eq!(pretty(3 << 20), "3 MiB");
    assert_eq!(pretty(2048 << 10), "2 MiB");
    if usize::BITS >= 64 {
        assert_eq!(pretty(1usize << 60), "1 EiB");
        assert_eq!(pretty(1usize << 63), "8 EiB");
    }
}

#[test]
fn align_n_wraps_values() {
    let w: AlignN<16, u32> = AlignN::new(7);
    assert_eq!(AlignN::<16, u32>::alignment().get(), 16);
    assert_eq!(w.into_inner(), 7);
    assert_eq!(<() as ByAlign<536870912>>::alignment().get(), 536870912);
    assert_eq!(<() as ByAlign<1>>::alignment().get(), 1);
}

#[test]
fn alignment_debug_strings_and_conversions() {
    assert_eq!(Alignment::new(16).unwrap().to_debug_string(), "16 B");
    assert_eq!(Alignment::new(4096).unwrap().to_debug_string(), "4 KiB");
    assert_eq!(usize::from(Alignment::new(32).unwrap()), 32);
    let layout = ialloc::layout::Layout::from_size_align(3, 64).unwrap();
    assert_eq!(Alignment::from(layout).get(), 64);
}

#[test]
fn align_n_derefs_to_its_value() {
    let w: AlignN<8, [u8; 3]> = AlignN::new([1, 2, 3]);
    assert_eq!(*w.get(), [1, 2, 3]);
    assert_eq!(w.len(), 3);
}

#[test]
fn align_n_from_and_default() {
    let w: AlignN<16, u32> = AlignN::from(9);
    assert_eq!(w.into_inner(), 9);
    let d: AlignN<16, u32> = Default::default();
    assert_eq!(d.into_inner(), 0);
    let c = AlignN::<4, u8>::new(3);
    let copy = c;
    assert_eq!(*c.get(), *copy.get());
}

#[test]
fn align_n_get_mut_writes_the_wrapped_value() {
    let mut w: AlignN<8, [u8; 3]> = AlignN::new([1, 2, 3]);
    w.get_mut()[1] = 9;
    assert_eq!(*w.get(), [1, 9, 3]);
    *w.get_mut() = [4, 5, 6];
    assert_eq!(w.into_inner(), [4, 5, 6]);
}
