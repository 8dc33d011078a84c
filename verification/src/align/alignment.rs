use vstd::prelude::*;

verus! {

use vstd::arithmetic::power2::{is_pow2, pow2, lemma_pow2, lemma_pow2_strictly_increases};
use vstd::arithmetic::power::pow;

/// A valid alignment: a power of 2 (which also implies nonzero).
#[derive(Clone, Copy, PartialEq, Eq, Hash, Debug, PartialOrd, Ord)]
pub struct Alignment {
    value: usize,
}

/// The largest power of two a `usize` can hold: 2<sup>`usize::BITS` - 1</sup>.
pub open spec fn max_alignment_bytes() -> usize {
    (usize::MAX / 2 + 1) as usize
}

/// `2^63` and `2^31` are the largest powers of two of the two `usize` widths.
pub proof fn lemma_max_alignment_is_pow2()
    ensures
        is_pow2(max_alignment_bytes() as int),
        max_alignment_bytes() > 0,
{
    broadcast use vstd::arithmetic::power2::is_pow2_equiv;
    vstd::arithmetic::power2::lemma2_to64();
    vstd::arithmetic::power2::lemma2_to64_rest();
    if usize::BITS == 64 {
        assert(usize::MAX == 0xffff_ffff_ffff_ffffint);
        lemma_pow2(63);
        assert(pow(2, 63) == max_alignment_bytes());
    } else {
        assert(usize::MAX == 0xffff_ffffint);
        lemma_pow2(31);
        assert(pow(2, 31) == max_alignment_bytes());
    }
}

/// `pow2(k)`, when it fits a `usize`, is a power of two.
pub proof fn lemma_pow2_value(k: nat, n: usize)
    requires
        pow2(k) == n,
    ensures
        is_pow2(n as int),
{
    broadcast use vstd::arithmetic::power2::is_pow2_equiv;
    lemma_pow2(k);
}

/// A power of two divides every larger power of two: data aligned to an alignment is aligned
/// to every smaller one.
pub proof fn lemma_pow2_divides_larger(a: int, m: int)
    requires
        is_pow2(a),
        is_pow2(m),
        a <= m,
    ensures
        m % a == 0,
{
    broadcast use vstd::arithmetic::power2::is_pow2_equiv;
    let i = choose|i: nat| pow(2, i) == a;
    let j = choose|j: nat| pow(2, j) == m;
    if i > j {
        vstd::arithmetic::power::lemma_pow_strictly_increases(2, j, i);
    }
    assert(i <= j);
    vstd::arithmetic::power::lemma_pow_adds(2, i, (j - i) as nat);
    let k = (j - i) as nat;
    assert(i + k == j);
    assert(m == a * pow(2, k));
    assert(a * pow(2, k) == pow(2, k) * a) by (nonlinear_arith);
    vstd::arithmetic::power::lemma_pow_positive(2, i);
    vstd::arithmetic::div_mod::lemma_mod_multiples_basic(pow(2, k), a);
}

/// Half of the largest alignment is a power of two too.
pub proof fn lemma_half_max_alignment_is_pow2()
    ensures
        is_pow2((max_alignment_bytes() / 2) as int),
        max_alignment_bytes() / 2 > 0,
{
    broadcast use vstd::arithmetic::power2::is_pow2_equiv;
    vstd::arithmetic::power2::lemma2_to64();
    vstd::arithmetic::power2::lemma2_to64_rest();
    if usize::BITS == 64 {
        assert(usize::MAX == 0xffff_ffff_ffff_ffffint);
        lemma_pow2(62);
        assert(pow(2, 62) == max_alignment_bytes() / 2);
    } else {
        assert(usize::MAX == 0xffff_ffffint);
        lemma_pow2(30);
        assert(pow(2, 30) == max_alignment_bytes() / 2);
    }
}

/// Every power of two held by a `usize` is at most the largest one.
pub proof fn lemma_pow2_le_max(n: usize)
    requires
        is_pow2(n as int),
    ensures
        n <= max_alignment_bytes(),
{
    broadcast use vstd::arithmetic::power2::is_pow2_equiv;
    let k = choose|i: nat| pow(2, i) == n;
    lemma_pow2(k);
    vstd::arithmetic::power2::lemma2_to64();
    vstd::arithmetic::power2::lemma2_to64_rest();
    let b: nat = if usize::BITS == 64 { 63 } else { 31 };
    assert(pow2(b) == max_alignment_bytes());
    assert(pow2(b + 1) > usize::MAX);
    if k > b + 1 {
        lemma_pow2_strictly_increases(b + 1, k);
    }
    if k < b {
        lemma_pow2_strictly_increases(k, b);
    }
}

impl Alignment {
    #[verifier::type_invariant]
    spec fn inv(self) -> bool {
        is_pow2(self.value as int)
    }

    /// The number of bytes this alignment stands for.
    pub closed spec fn spec_bytes(self) -> usize {
        self.value
    }

    /// Every alignment is a power of two.
    pub fn lemma_valid(&self)
        ensures
            is_pow2(self.spec_bytes() as int),
            self.spec_bytes() > 0,
    {
        proof {
            use_type_invariant(self);
            reveal(is_pow2);
        }
    }

    /// Returns `None` unless `align` is a power of 2.
    pub fn new(align: usize) -> (r: Option<Alignment>)
        ensures
            r is Some <==> is_pow2(align as int),
            r matches Some(a) ==> a.spec_bytes() == align,
    {
        if is_power_of_two(align) {
            Some(Alignment { value: align })
        } else {
            None
        }
    }

    /// The alignment `align`, which the caller knows to be a power of 2.
    pub fn constant(align: usize) -> (r: Alignment)
        requires
            is_pow2(align as int),
        ensures
            r.spec_bytes() == align,
            r == Self::spec_constant(align),
    {
        Alignment { value: align }
    }

    /// The alignment of `T`.
    pub closed spec fn spec_of<T>() -> Alignment {
        Alignment { value: vstd::layout::align_of::<T>() as usize }
    }

    /// The alignment of `T`.
    pub fn of<T>() -> (r: Alignment)
        ensures
            r.spec_bytes() == vstd::layout::align_of::<T>(),
            r == Self::spec_of::<T>(),
    {
        broadcast use vstd::layout::align_properties;
        let a = core::mem::align_of::<T>();
        Alignment { value: a }
    }

    /// Minimum representable alignment: `1`.
    pub fn minimum() -> (r: Alignment)
        ensures
            r.spec_bytes() == 1,
            r == Self::spec_constant(1),
    {
        proof {
            reveal(is_pow2);
        }
        Alignment { value: 1 }
    }

    /// The alignment of `align` bytes (meaningful when `align` is a power of 2).
    pub closed spec fn spec_constant(align: usize) -> Alignment {
        Alignment { value: align }
    }

    /// The alignment of `align` bytes stands for `align` bytes.
    pub proof fn lemma_constant_bytes(align: usize)
        ensures
            Self::spec_constant(align).spec_bytes() == align,
    {
    }

    /// Two alignments of the same number of bytes are the same alignment.
    pub proof fn lemma_eq_bytes(a: Alignment, b: Alignment)
        requires
            a.spec_bytes() == b.spec_bytes(),
        ensures
            a == b,
    {
    }

    /// The maximum representable alignment.
    pub closed spec fn spec_maximum() -> Alignment {
        Alignment { value: max_alignment_bytes() }
    }

    /// Maximum representable alignment: 2<sup>31</sup> or 2<sup>63</sup> bytes, by pointer width.
    pub fn maximum() -> (r: Alignment)
        ensures
            r.spec_bytes() == max_alignment_bytes(),
            r == Self::spec_maximum(),
            r == Self::spec_constant(max_alignment_bytes()),
    {
        proof {
            lemma_max_alignment_is_pow2();
        }
        Alignment { value: usize::MAX / 2 + 1 }
    }

    /// Returns the alignment as a `usize`.
    pub fn get(self) -> (r: usize)
        ensures
            r == self.spec_bytes(),
            is_pow2(r as int),
            0 < r <= max_alignment_bytes(),
    {
        self.lemma_valid();
        proof {
            lemma_pow2_le_max(self.value);
        }
        self.value
    }

    /// Returns the alignment as a `usize`.
    pub fn as_usize(self) -> (r: usize)
        ensures
            r == self.spec_bytes(),
            is_pow2(r as int),
            0 < r <= max_alignment_bytes(),
    {
        self.get()
    }

    /// Same as [`Alignment::new`]: `None` unless `align` is a power of 2.
    pub fn try_from_usize(align: usize) -> (r: Option<Alignment>)
        ensures
            r is Some <==> is_pow2(align as int),
            r matches Some(a) ==> a.spec_bytes() == align,
    {
        Self::new(align)
    }
}

impl From<Alignment> for usize {
    fn from(align: Alignment) -> (r: usize) {
        align.get()
    }
}

impl vstd::std_specs::convert::FromSpecImpl<Alignment> for usize {
    open spec fn obeys_from_spec() -> bool {
        true
    }

    open spec fn from_spec(align: Alignment) -> usize {
        align.spec_bytes()
    }
}

impl Alignment {
    /// The debug text of an alignment: its byte count in the largest binary unit that divides
    /// it, e.g. `16 KiB`.
    pub fn to_debug_string(&self) -> (r: String)
        ensures
            r@ == crate::util::bytes::pretty_spec(self.spec_bytes() as nat),
    {
        crate::util::bytes::pretty(self.get())
    }
}

/// Is `n` a power of two?  Divides out factors of two until an odd number remains.
pub fn is_power_of_two(n: usize) -> (r: bool)
    ensures
        r == is_pow2(n as int),
{
    if n == 0 {
        proof {
            reveal(is_pow2);
        }
        return false;
    }
    let mut m: usize = n;
    while m % 2 == 0
        invariant
            m > 0,
            is_pow2(m as int) == is_pow2(n as int),
        decreases m,
    {
        proof {
            reveal(is_pow2);
        }
        m = m / 2;
    }
    proof {
        reveal(is_pow2);
    }
    m == 1
}

} // verus!
