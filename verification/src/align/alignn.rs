use vstd::prelude::*;

verus! {

use vstd::arithmetic::power2::lemma2_to64;
use crate::align::alignment::{Alignment, lemma_pow2_value};

/// Implemented for `[(); A]` for every power of 2 `A` below 1 GiB; `Align` is the marker type of
/// that alignment.
pub trait ValidAlignLessThan1GiB {
    /// Marker type of the alignment.
    type Align;
}

/// Maps a byte count `A` to the alignment it stands for; implemented on `()` for every power of 2
/// below 1 GiB.
pub trait ByAlign<const A: usize> {
    /// Marker type of the alignment.
    type Align;

    /// The alignment of `A` bytes.
    fn alignment() -> (r: Alignment)
        ensures
            r.spec_bytes() == A,
            A <= 536870912,
    ;
}

/// Wraps a value together with an alignment of `A` bytes.
///
/// The alignment is carried as a number (see [`AlignN::alignment`]): the wrapper does not raise
/// the alignment of the value in memory, which would take a `repr(align)` attribute.
#[derive(Clone, Copy, Debug)]
pub struct AlignN<const A: usize, T> where (): ByAlign<A> {
    value: T,
}

impl<const A: usize, T> AlignN<A, T> where (): ByAlign<A> {
    /// The wrapper of `value`.
    pub closed spec fn spec_wrap(value: T) -> Self {
        AlignN { value }
    }

    /// Wrapping a value and unwrapping it gives the value back.
    pub proof fn lemma_wrap(value: T)
        ensures
            Self::spec_wrap(value).spec_value() == value,
    {
    }

    /// Wraps `value`.
    pub fn new(value: T) -> (r: Self)
        ensures
            r.spec_value() == value,
            r == Self::spec_wrap(value),
    {
        AlignN { value }
    }

    /// The wrapped value.
    pub closed spec fn spec_value(self) -> T {
        self.value
    }

    /// Unwraps the value.
    pub fn into_inner(self) -> (r: T)
        ensures
            r == self.spec_value(),
    {
        self.value
    }

    /// A reference to the wrapped value.
    pub fn get(&self) -> (r: &T)
        ensures
            *r == self.spec_value(),
    {
        &self.value
    }

    /// A mutable reference to the wrapped value: what is written through it is the wrapped
    /// value afterwards.
    pub fn get_mut(&mut self) -> (r: &mut T)
        ensures
            *r == old(self).spec_value(),
            final(self).spec_value() == *final(r),
    {
        &mut self.value
    }

    /// The alignment of the wrapper.
    pub fn alignment() -> (r: Alignment)
        ensures
            r.spec_bytes() == A,
    {
        <() as ByAlign<A>>::alignment()
    }
}

impl<const A: usize, T> core::ops::Deref for AlignN<A, T> where (): ByAlign<A> {
    type Target = T;

    fn deref(&self) -> (r: &T)
        ensures
            *r == self.spec_value(),
    {
        &self.value
    }
}

impl<const A: usize, T> From<T> for AlignN<A, T> where (): ByAlign<A> {
    fn from(value: T) -> (r: Self) {
        AlignN::new(value)
    }
}

impl<const A: usize, T> vstd::std_specs::convert::FromSpecImpl<T> for AlignN<A, T> where (): ByAlign<A> {
    open spec fn obeys_from_spec() -> bool {
        true
    }

    open spec fn from_spec(value: T) -> Self {
        AlignN::spec_wrap(value)
    }
}

impl<const A: usize, T: Default> Default for AlignN<A, T> where (): ByAlign<A> {
    /// Wraps `T::default()`.
    fn default() -> (r: Self)
        ensures
            call_ensures(T::default, (), r.spec_value()),
    {
        AlignN::new(T::default())
    }
}

/// Marker naming the 1-byte alignment (as a type, not as its own alignment in memory).
#[derive(Clone, Copy, Default, Debug, PartialEq, Eq, PartialOrd, Ord, Hash)]
pub struct Align1;

impl ValidAlignLessThan1GiB for [(); 1] {
    type Align = Align1;
}

impl ByAlign<1> for () {
    type Align = Align1;

    fn alignment() -> (r: Alignment) {
        proof {
            lemma2_to64();
            lemma_pow2_value(0, 1);
        }
        Alignment::constant(1)
    }
}

/// Marker naming the 2-byte alignment (as a type, not as its own alignment in memory).
#[derive(Clone, Copy, Default, Debug, PartialEq, Eq, PartialOrd, Ord, Hash)]
pub struct Align2;

impl ValidAlignLessThan1GiB for [(); 2] {
    type Align = Align2;
}

impl ByAlign<2> for () {
    type Align = Align2;

    fn alignment() -> (r: Alignment) {
        proof {
            lemma2_to64();
            lemma_pow2_value(1, 2);
        }
        Alignment::constant(2)
    }
}

/// Marker naming the 4-byte alignment (as a type, not as its own alignment in memory).
#[derive(Clone, Copy, Default, Debug, PartialEq, Eq, PartialOrd, Ord, Hash)]
pub struct Align4;

impl ValidAlignLessThan1GiB for [(); 4] {
    type Align = Align4;
}

impl ByAlign<4> for () {
    type Align = Align4;

    fn alignment() -> (r: Alignment) {
        proof {
            lemma2_to64();
            lemma_pow2_value(2, 4);
        }
        Alignment::constant(4)
    }
}

/// Marker naming the 8-byte alignment (as a type, not as its own alignment in memory).
#[derive(Clone, Copy, Default, Debug, PartialEq, Eq, PartialOrd, Ord, Hash)]
pub struct Align8;

impl ValidAlignLessThan1GiB for [(); 8] {
    type Align = Align8;
}

impl ByAlign<8> for () {
    type Align = Align8;

    fn alignment() -> (r: Alignment) {
        proof {
            lemma2_to64();
            lemma_pow2_value(3, 8);
        }
        Alignment::constant(8)
    }
}

/// Marker naming the 16-byte alignment (as a type, not as its own alignment in memory).
#[derive(Clone, Copy, Default, Debug, PartialEq, Eq, PartialOrd, Ord, Hash)]
pub struct Align16;

impl ValidAlignLessThan1GiB for [(); 16] {
    type Align = Align16;
}

impl ByAlign<16> for () {
    type Align = Align16;

    fn alignment() -> (r: Alignment) {
        proof {
            lemma2_to64();
            lemma_pow2_value(4, 16);
        }
        Alignment::constant(16)
    }
}

/// Marker naming the 32-byte alignment (as a type, not as its own alignment in memory).
#[derive(Clone, Copy, Default, Debug, PartialEq, Eq, PartialOrd, Ord, Hash)]
pub struct Align32;

impl ValidAlignLessThan1GiB for [(); 32] {
    type Align = Align32;
}

impl ByAlign<32> for () {
    type Align = Align32;

    fn alignment() -> (r: Alignment) {
        proof {
            lemma2_to64();
            lemma_pow2_value(5, 32);
        }
        Alignment::constant(32)
    }
}

/// Marker naming the 64-byte alignment (as a type, not as its own alignment in memory).
#[derive(Clone, Copy, Default, Debug, PartialEq, Eq, PartialOrd, Ord, Hash)]
pub struct Align64;

impl ValidAlignLessThan1GiB for [(); 64] {
    type Align = Align64;
}

impl ByAlign<64> for () {
    type Align = Align64;

    fn alignment() -> (r: Alignment) {
        proof {
            lemma2_to64();
            lemma_pow2_value(6, 64);
        }
        Alignment::constant(64)
    }
}

/// Marker naming the 128-byte alignment (as a type, not as its own alignment in memory).
#[derive(Clone, Copy, Default, Debug, PartialEq, Eq, PartialOrd, Ord, Hash)]
pub struct Align128;

impl ValidAlignLessThan1GiB for [(); 128] {
    type Align = Align128;
}

impl ByAlign<128> for () {
    type Align = Align128;

    fn alignment() -> (r: Alignment) {
        proof {
            lemma2_to64();
            lemma_pow2_value(7, 128);
        }
        Alignment::constant(128)
    }
}

/// Marker naming the 256-byte alignment (as a type, not as its own alignment in memory).
#[derive(Clone, Copy, Default, Debug, PartialEq, Eq, PartialOrd, Ord, Hash)]
pub struct Align256;

impl ValidAlignLessThan1GiB for [(); 256] {
    type Align = Align256;
}

impl ByAlign<256> for () {
    type Align = Align256;

    fn alignment() -> (r: Alignment) {
        proof {
            lemma2_to64();
            lemma_pow2_value(8, 256);
        }
        Alignment::constant(256)
    }
}

/// Marker naming the 512-byte alignment (as a type, not as its own alignment in memory).
#[derive(Clone, Copy, Default, Debug, PartialEq, Eq, PartialOrd, Ord, Hash)]
pub struct Align512;

impl ValidAlignLessThan1GiB for [(); 512] {
    type Align = Align512;
}

impl ByAlign<512> for () {
    type Align = Align512;

    fn alignment() -> (r: Alignment) {
        proof {
            lemma2_to64();
            lemma_pow2_value(9, 512);
        }
        Alignment::constant(512)
    }
}

/// Marker naming the 1024-byte alignment (as a type, not as its own alignment in memory).
#[derive(Clone, Copy, Default, Debug, PartialEq, Eq, PartialOrd, Ord, Hash)]
pub struct Align1024;

impl ValidAlignLessThan1GiB for [(); 1024] {
    type Align = Align1024;
}

impl ByAlign<1024> for () {
    type Align = Align1024;

    fn alignment() -> (r: Alignment) {
        proof {
            lemma2_to64();
            lemma_pow2_value(10, 1024);
        }
        Alignment::constant(1024)
    }
}

/// Marker naming the 2048-byte alignment (as a type, not as its own alignment in memory).
#[derive(Clone, Copy, Default, Debug, PartialEq, Eq, PartialOrd, Ord, Hash)]
pub struct Align2048;

impl ValidAlignLessThan1GiB for [(); 2048] {
    type Align = Align2048;
}

impl ByAlign<2048> for () {
    type Align = Align2048;

    fn alignment() -> (r: Alignment) {
        proof {
            lemma2_to64();
            lemma_pow2_value(11, 2048);
        }
        Alignment::constant(2048)
    }
}

/// Marker naming the 4096-byte alignment (as a type, not as its own alignment in memory).
#[derive(Clone, Copy, Default, Debug, PartialEq, Eq, PartialOrd, Ord, Hash)]
pub struct Align4096;

impl ValidAlignLessThan1GiB for [(); 4096] {
    type Align = Align4096;
}

impl ByAlign<4096> for () {
    type Align = Align4096;

    fn alignment() -> (r: Alignment) {
        proof {
            lemma2_to64();
            lemma_pow2_value(12, 4096);
        }
        Alignment::constant(4096)
    }
}

/// Marker naming the 8192-byte alignment (as a type, not as its own alignment in memory).
#[derive(Clone, Copy, Default, Debug, PartialEq, Eq, PartialOrd, Ord, Hash)]
pub struct Align8192;

impl ValidAlignLessThan1GiB for [(); 8192] {
    type Align = Align8192;
}

impl ByAlign<8192> for () {
    type Align = Align8192;

    fn alignment() -> (r: Alignment) {
        proof {
            lemma2_to64();
            lemma_pow2_value(13, 8192);
        }
        Alignment::constant(8192)
    }
}

/// Marker naming the 16384-byte alignment (as a type, not as its own alignment in memory).
#[derive(Clone, Copy, Default, Debug, PartialEq, Eq, PartialOrd, Ord, Hash)]
pub struct Align16384;

impl ValidAlignLessThan1GiB for [(); 16384] {
    type Align = Align16384;
}

impl ByAlign<16384> for () {
    type Align = Align16384;

    fn alignment() -> (r: Alignment) {
        proof {
            lemma2_to64();
            lemma_pow2_value(14, 16384);
        }
        Alignment::constant(16384)
    }
}

/// Marker naming the 32768-byte alignment (as a type, not as its own alignment in memory).
#[derive(Clone, Copy, Default, Debug, PartialEq, Eq, PartialOrd, Ord, Hash)]
pub struct Align32768;

impl ValidAlignLessThan1GiB for [(); 32768] {
    type Align = Align32768;
}

impl ByAlign<32768> for () {
    type Align = Align32768;

    fn alignment() -> (r: Alignment) {
        proof {
            lemma2_to64();
            lemma_pow2_value(15, 32768);
        }
        Alignment::constant(32768)
    }
}

/// Marker naming the 65536-byte alignment (as a type, not as its own alignment in memory).
#[derive(Clone, Copy, Default, Debug, PartialEq, Eq, PartialOrd, Ord, Hash)]
pub struct Align65536;

impl ValidAlignLessThan1GiB for [(); 65536] {
    type Align = Align65536;
}

impl ByAlign<65536> for () {
    type Align = Align65536;

    fn alignment() -> (r: Alignment) {
        proof {
            lemma2_to64();
            lemma_pow2_value(16, 65536);
        }
        Alignment::constant(65536)
    }
}

/// Marker naming the 131072-byte alignment (as a type, not as its own alignment in memory).
#[derive(Clone, Copy, Default, Debug, PartialEq, Eq, PartialOrd, Ord, Hash)]
pub struct Align131072;

impl ValidAlignLessThan1GiB for [(); 131072] {
    type Align = Align131072;
}

impl ByAlign<131072> for () {
    type Align = Align131072;

    fn alignment() -> (r: Alignment) {
        proof {
            lemma2_to64();
            lemma_pow2_value(17, 131072);
        }
        Alignment::constant(131072)
    }
}

/// Marker naming the 262144-byte alignment (as a type, not as its own alignment in memory).
#[derive(Clone, Copy, Default, Debug, PartialEq, Eq, PartialOrd, Ord, Hash)]
pub struct Align262144;

impl ValidAlignLessThan1GiB for [(); 262144] {
    type Align = Align262144;
}

impl ByAlign<262144> for () {
    type Align = Align262144;

    fn alignment() -> (r: Alignment) {
        proof {
            lemma2_to64();
            lemma_pow2_value(18, 262144);
        }
        Alignment::constant(262144)
    }
}

/// Marker naming the 524288-byte alignment (as a type, not as its own alignment in memory).
#[derive(Clone, Copy, Default, Debug, PartialEq, Eq, PartialOrd, Ord, Hash)]
pub struct Align524288;

impl ValidAlignLessThan1GiB for [(); 524288] {
    type Align = Align524288;
}

impl ByAlign<524288> for () {
    type Align = Align524288;

    fn alignment() -> (r: Alignment) {
        proof {
            lemma2_to64();
            lemma_pow2_value(19, 524288);
        }
        Alignment::constant(524288)
    }
}

/// Marker naming the 1048576-byte alignment (as a type, not as its own alignment in memory).
#[derive(Clone, Copy, Default, Debug, PartialEq, Eq, PartialOrd, Ord, Hash)]
pub struct Align1048576;

impl ValidAlignLessThan1GiB for [(); 1048576] {
    type Align = Align1048576;
}

impl ByAlign<1048576> for () {
    type Align = Align1048576;

    fn alignment() -> (r: Alignment) {
        proof {
            lemma2_to64();
            lemma_pow2_value(20, 1048576);
        }
        Alignment::constant(1048576)
    }
}

/// Marker naming the 2097152-byte alignment (as a type, not as its own alignment in memory).
#[derive(Clone, Copy, Default, Debug, PartialEq, Eq, PartialOrd, Ord, Hash)]
pub struct Align2097152;

impl ValidAlignLessThan1GiB for [(); 2097152] {
    type Align = Align2097152;
}

impl ByAlign<2097152> for () {
    type Align = Align2097152;

    fn alignment() -> (r: Alignment) {
        proof {
            lemma2_to64();
            lemma_pow2_value(21, 2097152);
        }
        Alignment::constant(2097152)
    }
}

/// Marker naming the 4194304-byte alignment (as a type, not as its own alignment in memory).
#[derive(Clone, Copy, Default, Debug, PartialEq, Eq, PartialOrd, Ord, Hash)]
pub struct Align4194304;

impl ValidAlignLessThan1GiB for [(); 4194304] {
    type Align = Align4194304;
}

impl ByAlign<4194304> for () {
    type Align = Align4194304;

    fn alignment() -> (r: Alignment) {
        proof {
            lemma2_to64();
            lemma_pow2_value(22, 4194304);
        }
        Alignment::constant(4194304)
    }
}

/// Marker naming the 8388608-byte alignment (as a type, not as its own alignment in memory).
#[derive(Clone, Copy, Default, Debug, PartialEq, Eq, PartialOrd, Ord, Hash)]
pub struct Align8388608;

impl ValidAlignLessThan1GiB for [(); 8388608] {
    type Align = Align8388608;
}

impl ByAlign<8388608> for () {
    type Align = Align8388608;

    fn alignment() -> (r: Alignment) {
        proof {
            lemma2_to64();
            lemma_pow2_value(23, 8388608);
        }
        Alignment::constant(8388608)
    }
}

/// Marker naming the 16777216-byte alignment (as a type, not as its own alignment in memory).
#[derive(Clone, Copy, Default, Debug, PartialEq, Eq, PartialOrd, Ord, Hash)]
pub struct Align16777216;

impl ValidAlignLessThan1GiB for [(); 16777216] {
    type Align = Align16777216;
}

impl ByAlign<16777216> for () {
    type Align = Align16777216;

    fn alignment() -> (r: Alignment) {
        proof {
            lemma2_to64();
            lemma_pow2_value(24, 16777216);
        }
        Alignment::constant(16777216)
    }
}

/// Marker naming the 33554432-byte alignment (as a type, not as its own alignment in memory).
#[derive(Clone, Copy, Default, Debug, PartialEq, Eq, PartialOrd, Ord, Hash)]
pub struct Align33554432;

impl ValidAlignLessThan1GiB for [(); 33554432] {
    type Align = Align33554432;
}

impl ByAlign<33554432> for () {
    type Align = Align33554432;

    fn alignment() -> (r: Alignment) {
        proof {
            lemma2_to64();
            lemma_pow2_value(25, 33554432);
        }
        Alignment::constant(33554432)
    }
}

/// Marker naming the 67108864-byte alignment (as a type, not as its own alignment in memory).
#[derive(Clone, Copy, Default, Debug, PartialEq, Eq, PartialOrd, Ord, Hash)]
pub struct Align67108864;

impl ValidAlignLessThan1GiB for [(); 67108864] {
    type Align = Align67108864;
}

impl ByAlign<67108864> for () {
    type Align = Align67108864;

    fn alignment() -> (r: Alignment) {
        proof {
            lemma2_to64();
            lemma_pow2_value(26, 67108864);
        }
        Alignment::constant(67108864)
    }
}

/// Marker naming the 134217728-byte alignment (as a type, not as its own alignment in memory).
#[derive(Clone, Copy, Default, Debug, PartialEq, Eq, PartialOrd, Ord, Hash)]
pub struct Align134217728;

impl ValidAlignLessThan1GiB for [(); 134217728] {
    type Align = Align134217728;
}

impl ByAlign<134217728> for () {
    type Align = Align134217728;

    fn alignment() -> (r: Alignment) {
        proof {
            lemma2_to64();
            lemma_pow2_value(27, 134217728);
        }
        Alignment::constant(134217728)
    }
}

/// Marker naming the 268435456-byte alignment (as a type, not as its own alignment in memory).
#[derive(Clone, Copy, Default, Debug, PartialEq, Eq, PartialOrd, Ord, Hash)]
pub struct Align268435456;

impl ValidAlignLessThan1GiB for [(); 268435456] {
    type Align = Align268435456;
}

impl ByAlign<268435456> for () {
    type Align = Align268435456;

    fn alignment() -> (r: Alignment) {
        proof {
            lemma2_to64();
            lemma_pow2_value(28, 268435456);
        }
        Alignment::constant(268435456)
    }
}

/// Marker naming the 536870912-byte alignment (as a type, not as its own alignment in memory).
#[derive(Clone, Copy, Default, Debug, PartialEq, Eq, PartialOrd, Ord, Hash)]
pub struct Align536870912;

impl ValidAlignLessThan1GiB for [(); 536870912] {
    type Align = Align536870912;
}

impl ByAlign<536870912> for () {
    type Align = Align536870912;

    fn alignment() -> (r: Alignment) {
        proof {
            lemma2_to64();
            lemma_pow2_value(29, 536870912);
        }
        Alignment::constant(536870912)
    }
}

} // verus!
