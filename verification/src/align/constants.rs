use vstd::prelude::*;

verus! {

use vstd::arithmetic::power2::is_pow2;
use crate::align::alignment::Alignment;

/// Two pointers' worth of bytes: 16 on 64-bit targets, 8 on 32-bit ones.
pub open spec fn two_pointer_bytes() -> usize {
    if usize::BITS == 64 { 16 } else { 8 }
}

/// The alignment of two pointers' worth of bytes, the largest fundamental alignment of the
/// C allocators on common targets: 16 bytes on 64-bit targets, 8 on 32-bit ones.
pub fn two_pointer_alignment() -> (r: Alignment)
    ensures
        r == Alignment::spec_constant(two_pointer_bytes()),
        r.spec_bytes() == two_pointer_bytes(),
{
    proof {
        reveal_with_fuel(is_pow2, 5);
    }
    if usize::BITS == 64 {
        Alignment::constant(16)
    } else {
        Alignment::constant(8)
    }
}

/// The alignment of 4 KiB.
pub fn align_4_kib() -> (r: Alignment)
    ensures
        r == Alignment::spec_constant(4096),
        r.spec_bytes() == 4096,
{
    proof {
        reveal_with_fuel(is_pow2, 13);
    }
    Alignment::constant(4096)
}

/// The smaller of 2 GiB and the largest representable alignment.
pub open spec fn min_2_gib_max_bytes() -> usize {
    if usize::BITS == 64 { 0x8000_0000 } else { crate::align::alignment::max_alignment_bytes() }
}

/// The smaller of 2 GiB and the largest representable alignment.
pub fn align_min_2_gib_max() -> (r: Alignment)
    ensures
        r == Alignment::spec_constant(min_2_gib_max_bytes()),
        r.spec_bytes() == min_2_gib_max_bytes(),
{
    proof {
        crate::align::alignment::lemma_max_alignment_is_pow2();
        vstd::arithmetic::power2::lemma2_to64();
        crate::align::alignment::lemma_pow2_value(31, 0x8000_0000);
    }
    if usize::BITS == 64 {
        Alignment::constant(0x8000_0000)
    } else {
        Alignment::maximum()
    }
}

} // verus!
