use vstd::prelude::*;

verus! {

use crate::align::alignment::Alignment;
use crate::meta::Meta;

/// C++ `std::allocator<T>::allocate` and `std::allocator<T>::deallocate`.  The wrapper holds
/// no state: it has a single value, [`StdAllocator::spec_value`].
#[derive(Copy, Debug)]
pub struct StdAllocator<T>(core::marker::PhantomData<T>);

impl<T> StdAllocator<T> {
    /// The one value of the wrapper.
    pub closed spec fn spec_value() -> Self {
        StdAllocator(core::marker::PhantomData)
    }

    /// A `std::allocator<T>` wrapper.
    pub fn new() -> (r: Self)
        ensures
            r == Self::spec_value(),
    {
        StdAllocator(core::marker::PhantomData)
    }
}

impl<T> Clone for StdAllocator<T> {
    fn clone(&self) -> (r: Self)
        ensures
            r == Self::spec_value(),
    {
        Self::new()
    }
}

impl<T> Default for StdAllocator<T> {
    /// Same as [`StdAllocator::new`].
    fn default() -> (r: Self)
        ensures
            r == Self::spec_value(),
    {
        Self::new()
    }
}

impl<T> PartialEq for StdAllocator<T> {
    fn eq(&self, other: &Self) -> (r: bool) {
        let _ = other;
        true
    }
}

impl<T> vstd::std_specs::cmp::PartialEqSpecImpl for StdAllocator<T> {
    open spec fn obeys_eq_spec() -> bool {
        true
    }

    open spec fn eq_spec(&self, other: &Self) -> bool {
        true
    }
}

impl<T> Eq for StdAllocator<T> {}

impl<T> Meta for StdAllocator<T> {
    open spec fn spec_max_align() -> Alignment {
        Alignment::spec_of::<T>()
    }

    open spec fn spec_max_size() -> usize {
        usize::MAX
    }

    open spec fn spec_zst_supported() -> bool {
        false
    }

    open spec fn spec_min_align() -> Alignment {
        Alignment::spec_constant(1)
    }

    fn max_align() -> (r: Alignment) {
        Alignment::of::<T>()
    }

    fn max_size() -> (r: usize) {
        usize::MAX
    }

    fn zst_supported() -> (r: bool) {
        false
    }

    fn min_align() -> (r: Alignment) {
        Alignment::minimum()
    }
}

} // verus!
