use vstd::prelude::*;

verus! {

use vstd::arithmetic::power2::is_pow2;
use crate::align::alignment::Alignment;
use crate::error::ExcessiveAlignmentRequestedError;
use crate::layout::Layout;
use crate::meta::Meta;

/// If the underlying allocator doesn't support ZSTs, add support by returning dangling pointers
/// for ZSTs.  This is efficient, but awkward for C/C++ interop, where the underlying allocator
/// likely chokes on dangling pointers.
///
/// The functions of this type decide how a request is served; the caller carries the decision
/// out against the underlying allocator.
#[derive(Clone, Copy, Debug, Default, PartialEq, Eq, PartialOrd, Ord, Hash)]
pub struct DangleZst<A>(pub A);

/// How a size-only allocation request is served.
#[derive(Clone, Copy, Debug, PartialEq, Eq)]
pub enum ThinAllocStep {
    /// Answer with this address; nothing is allocated.
    Dangle(usize),
    /// Ask the underlying allocator for this many bytes.
    Inner(usize),
}

/// How a size-only reallocation request is served.
#[derive(Clone, Copy, Debug, PartialEq, Eq)]
pub enum ThinReallocStep {
    /// The old pointer is the dangling one and the new size is zero: answer with this dangling
    /// address; nothing is allocated or freed.
    Dangle(usize),
    /// The old pointer is the dangling one: allocate this many bytes, uninitialized, instead.
    AllocUninit(usize),
    /// The old pointer is the dangling one: allocate this many zeroed bytes instead.
    AllocZeroed(usize),
    /// Free the old allocation and answer with this dangling address.
    FreeThenDangle(usize),
    /// Ask the underlying allocator to reallocate to this many bytes, uninitialized.
    ReallocUninit(usize),
    /// Ask the underlying allocator to reallocate to this many bytes, zeroed.
    ReallocZeroed(usize),
}

/// How a layout allocation request is served.
#[derive(Clone, Copy, Debug, PartialEq, Eq)]
pub enum FatAllocStep {
    /// Answer with this address; nothing is allocated.
    Dangle(usize),
    /// Ask the underlying allocator for this layout.
    Inner(Layout),
    /// Refuse the request.
    Refuse(ExcessiveAlignmentRequestedError),
}

/// How a layout reallocation request is served.
#[derive(Clone, Copy, Debug, PartialEq, Eq)]
pub enum FatReallocStep {
    /// Ask the underlying allocator to reallocate between the two layouts.
    Inner,
    /// Allocate as `alloc` says, copy `copy_len` bytes over, then, if `free_old`, free the old
    /// allocation through the underlying allocator.  Should the allocation fail, nothing is
    /// copied or freed and the old allocation stays valid.
    Move { alloc: FatAllocStep, copy_len: usize, free_old: bool },
    /// Refuse the request before anything is allocated, copied or freed: the old allocation
    /// stays valid.
    Refuse(ExcessiveAlignmentRequestedError),
}

impl<A: Meta> DangleZst<A> {
    /// The address answered for zero-sized requests: the largest alignment the underlying
    /// allocator supports, which is nonzero and aligned to every supported alignment.
    pub open spec fn spec_dangle() -> usize {
        A::spec_max_align().spec_bytes()
    }

    /// The address answered for zero-sized requests.
    pub fn dangle() -> (r: usize)
        ensures
            r == Self::spec_dangle(),
            r > 0,
    {
        A::max_align().get()
    }

    /// Allocating `size` bytes: zero bytes dangle, anything else goes to the underlying allocator.
    pub fn thin_alloc_uninit(size: usize) -> (r: ThinAllocStep)
        ensures
            r == if size == 0 { ThinAllocStep::Dangle(Self::spec_dangle()) } else { ThinAllocStep::Inner(size) },
    {
        if size == 0 {
            return ThinAllocStep::Dangle(Self::dangle());
        }
        ThinAllocStep::Inner(size)
    }

    /// Freeing `ptr`: the dangling address was never allocated and is ignored.
    pub fn thin_free_is_inner(ptr: usize) -> (r: bool)
        ensures
            r == (ptr != Self::spec_dangle()),
    {
        ptr != Self::dangle()
    }

    /// What [`Self::thin_realloc_uninit`] (`zeroed == false`) and [`Self::thin_realloc_zeroed`]
    /// (`zeroed == true`) decide for reallocating `ptr` to `new_size` bytes.
    pub open spec fn spec_thin_realloc(ptr: usize, new_size: usize, zeroed: bool) -> ThinReallocStep {
        if new_size == 0 {
            if ptr == Self::spec_dangle() {
                ThinReallocStep::Dangle(Self::spec_dangle())
            } else {
                ThinReallocStep::FreeThenDangle(Self::spec_dangle())
            }
        } else if ptr == Self::spec_dangle() {
            if zeroed {
                ThinReallocStep::AllocZeroed(new_size)
            } else {
                ThinReallocStep::AllocUninit(new_size)
            }
        } else if zeroed {
            ThinReallocStep::ReallocZeroed(new_size)
        } else {
            ThinReallocStep::ReallocUninit(new_size)
        }
    }

    fn thin_realloc(ptr: usize, new_size: usize, zeroed: bool) -> (r: ThinReallocStep)
        ensures
            r == Self::spec_thin_realloc(ptr, new_size, zeroed),
    {
        let dangle = Self::dangle();
        if new_size == 0 {
            if ptr == dangle {
                ThinReallocStep::Dangle(dangle)
            } else {
                ThinReallocStep::FreeThenDangle(dangle)
            }
        } else if ptr == dangle {
            if zeroed {
                ThinReallocStep::AllocZeroed(new_size)
            } else {
                ThinReallocStep::AllocUninit(new_size)
            }
        } else if zeroed {
            ThinReallocStep::ReallocZeroed(new_size)
        } else {
            ThinReallocStep::ReallocUninit(new_size)
        }
    }

    /// Reallocating `ptr` to `new_size` bytes, uninitialized.  Zero sizes are answered with the
    /// dangling address, freeing the old allocation if it was a real one; the dangling address
    /// grows into a fresh allocation; anything else is reallocated by the underlying allocator.
    pub fn thin_realloc_uninit(ptr: usize, new_size: usize) -> (r: ThinReallocStep)
        ensures
            r == Self::spec_thin_realloc(ptr, new_size, false),
    {
        Self::thin_realloc(ptr, new_size, false)
    }

    /// Reallocating `ptr` to `new_size` bytes, zeroed: as [`Self::thin_realloc_uninit`], with the
    /// zeroing variants of the underlying allocator's calls.  The adapter reports the underlying
    /// allocator's ability to zero on reallocation as its own, so a real allocation is grown by
    /// the underlying allocator's zeroing reallocation.
    pub fn thin_realloc_zeroed(ptr: usize, new_size: usize) -> (r: ThinReallocStep)
        ensures
            r == Self::spec_thin_realloc(ptr, new_size, true),
    {
        Self::thin_realloc(ptr, new_size, true)
    }

    /// Allocating `layout`: nonzero sizes go to the underlying allocator; zero sizes dangle if
    /// the alignment is supported and are refused otherwise.
    pub fn fat_alloc(layout: Layout) -> (r: FatAllocStep)
        ensures
            r == Self::spec_fat_alloc(layout),
    {
        if layout.size() > 0 {
            FatAllocStep::Inner(layout)
        } else if layout.align() <= Self::dangle() {
            FatAllocStep::Dangle(Self::dangle())
        } else {
            FatAllocStep::Refuse(
                ExcessiveAlignmentRequestedError {
                    requested: layout.alignment(),
                    supported: A::max_align(),
                },
            )
        }
    }

    /// Freeing `ptr` of `layout`: only nonzero sizes reach the underlying allocator.  A zero-sized
    /// allocation must be the dangling address with a supported alignment.
    pub fn fat_free_is_inner(ptr: usize, layout: Layout) -> (r: bool)
        requires
            layout.spec_size() == 0 ==> ptr == Self::spec_dangle() && layout.spec_align()
                <= Self::spec_dangle(),
        ensures
            r == (layout.spec_size() > 0),
    {
        let _ = ptr;
        layout.size() > 0
    }

    /// Reallocating `ptr` from `old_layout` to `new_layout`: between nonzero sizes the underlying
    /// allocator reallocates; otherwise a new allocation is made as [`Self::fat_alloc`] says, the
    /// common bytes are copied, and the old allocation is freed as [`Self::fat_free_is_inner`] says.
    /// When [`Self::fat_alloc`] refuses the new layout, the whole request is refused with the same
    /// error and the old allocation is kept.
    pub fn fat_realloc(ptr: usize, old_layout: Layout, new_layout: Layout) -> (r: FatReallocStep)
        requires
            old_layout.spec_size() == 0 ==> ptr == Self::spec_dangle() && old_layout.spec_align()
                <= Self::spec_dangle(),
        ensures
            r == Self::spec_fat_realloc(old_layout, new_layout),
    {
        let old_size = old_layout.size();
        let new_size = new_layout.size();
        if old_size > 0 && new_size > 0 {
            FatReallocStep::Inner
        } else {
            let alloc = Self::fat_alloc(new_layout);
            if let FatAllocStep::Refuse(e) = alloc {
                return FatReallocStep::Refuse(e);
            }
            let copy_len = if old_size < new_size { old_size } else { new_size };
            let free_old = Self::fat_free_is_inner(ptr, old_layout);
            FatReallocStep::Move { alloc, copy_len, free_old }
        }
    }

    /// What [`Self::fat_realloc`] decides for reallocating from `old_layout` to `new_layout`.
    pub open spec fn spec_fat_realloc(old_layout: Layout, new_layout: Layout) -> FatReallocStep {
        let old_size = old_layout.spec_size();
        let new_size = new_layout.spec_size();
        if old_size > 0 && new_size > 0 {
            FatReallocStep::Inner
        } else if let FatAllocStep::Refuse(e) = Self::spec_fat_alloc(new_layout) {
            FatReallocStep::Refuse(e)
        } else {
            FatReallocStep::Move {
                alloc: Self::spec_fat_alloc(new_layout),
                copy_len: if old_size < new_size { old_size } else { new_size },
                free_old: old_size > 0,
            }
        }
    }

    /// What [`Self::fat_alloc`] decides for `layout`.
    pub open spec fn spec_fat_alloc(layout: Layout) -> FatAllocStep {
        if layout.spec_size() > 0 {
            FatAllocStep::Inner(layout)
        } else if layout.spec_align() <= Self::spec_dangle() {
            FatAllocStep::Dangle(Self::spec_dangle())
        } else {
            FatAllocStep::Refuse(
                ExcessiveAlignmentRequestedError {
                    requested: layout.spec_alignment(),
                    supported: A::spec_max_align(),
                },
            )
        }
    }
}

/// Zero-sized requests never reach the underlying allocator and never fail: allocating zero
/// bytes, or reallocating anything to zero bytes, is answered with the dangling address (after
/// freeing the old allocation when it was a real one).
pub proof fn lemma_zero_sizes_are_infallible<A: Meta>(ptr: usize, zeroed: bool)
    ensures
        DangleZst::<A>::spec_thin_realloc(ptr, 0, zeroed) == if ptr == DangleZst::<A>::spec_dangle() {
            ThinReallocStep::Dangle(DangleZst::<A>::spec_dangle())
        } else {
            ThinReallocStep::FreeThenDangle(DangleZst::<A>::spec_dangle())
        },
{
}

/// A size-only reallocation to a nonzero size never dangles: the dangling address is replaced by
/// a fresh allocation of the new size, and a real allocation is reallocated by the underlying
/// allocator to the new size, zeroing exactly when zeroing was asked for.
pub proof fn lemma_thin_realloc_nonzero_sizes<A: Meta>(ptr: usize, new_size: usize, zeroed: bool)
    requires
        new_size > 0,
    ensures
        ptr == A::spec_max_align().spec_bytes() ==> DangleZst::<A>::spec_thin_realloc(
            ptr,
            new_size,
            zeroed,
        ) == if zeroed {
            ThinReallocStep::AllocZeroed(new_size)
        } else {
            ThinReallocStep::AllocUninit(new_size)
        },
        ptr != A::spec_max_align().spec_bytes() ==> DangleZst::<A>::spec_thin_realloc(
            ptr,
            new_size,
            zeroed,
        ) == if zeroed {
            ThinReallocStep::ReallocZeroed(new_size)
        } else {
            ThinReallocStep::ReallocUninit(new_size)
        },
{
}

/// A layout reallocation between nonzero sizes is left to the underlying allocator; any other
/// that is not refused moves the block, copying the bytes both layouts share.
pub proof fn lemma_fat_realloc_moves_only_zero_sizes<A: Meta>(old_layout: Layout, new_layout: Layout)
    ensures
        DangleZst::<A>::spec_fat_realloc(old_layout, new_layout) is Inner <==> old_layout.spec_size()
            > 0 && new_layout.spec_size() > 0,
        DangleZst::<A>::spec_fat_realloc(old_layout, new_layout) matches FatReallocStep::Move {
            copy_len,
            ..
        } ==> copy_len == 0 && (old_layout.spec_size() == 0 || new_layout.spec_size() == 0),
{
}

/// A layout allocation is served as the underlying allocator's limits say: a nonzero size goes
/// to the underlying allocator unchanged; a zero size with an alignment up to the underlying
/// allocator's largest is answered with the dangling address, which is that largest alignment;
/// only a zero size with a larger alignment is refused, naming both alignments.  A reallocation
/// to a zero-sized layout of supported alignment is therefore never refused.
pub proof fn lemma_fat_alloc_serves_supported_zero_sizes<A: Meta>(layout: Layout, old_layout: Layout)
    ensures
        layout.spec_size() > 0 ==> DangleZst::<A>::spec_fat_alloc(layout) == FatAllocStep::Inner(layout),
        layout.spec_size() == 0 && layout.spec_align() <= A::spec_max_align().spec_bytes()
            ==> DangleZst::<A>::spec_fat_alloc(layout) == FatAllocStep::Dangle(
            A::spec_max_align().spec_bytes(),
        ),
        layout.spec_size() == 0 && layout.spec_align() > A::spec_max_align().spec_bytes()
            ==> DangleZst::<A>::spec_fat_alloc(layout) == FatAllocStep::Refuse(
            ExcessiveAlignmentRequestedError {
                requested: layout.spec_alignment(),
                supported: A::spec_max_align(),
            },
        ),
        layout.spec_align() <= A::spec_max_align().spec_bytes()
            ==> DangleZst::<A>::spec_fat_realloc(old_layout, layout) !is Refuse,
{
}

/// The adapter reports the limits of the allocator it wraps, and adds support for zero sizes:
/// it serves no alignment the underlying allocator does not guarantee.
pub proof fn lemma_dangle_zst_limits<A: Meta>()
    ensures
        <DangleZst<A> as Meta>::spec_max_align() == A::spec_max_align(),
        <DangleZst<A> as Meta>::spec_max_size() == A::spec_max_size(),
        <DangleZst<A> as Meta>::spec_min_align() == A::spec_min_align(),
        <DangleZst<A> as Meta>::spec_zst_supported(),
        DangleZst::<A>::spec_dangle() == A::spec_max_align().spec_bytes(),
{
}

/// A layout reallocation never frees the old allocation unless its replacement was allocated:
/// it is refused, with the old allocation untouched, exactly when a zero-sized side is involved
/// and the new layout's allocation would be refused, and with the same error; every move it
/// decides allocates without refusal and frees the old allocation exactly when that one is real.
pub proof fn lemma_refused_realloc_keeps_old_block<A: Meta>(old_layout: Layout, new_layout: Layout)
    ensures
        DangleZst::<A>::spec_fat_realloc(old_layout, new_layout) is Refuse <==> ((
        old_layout.spec_size() == 0 || new_layout.spec_size() == 0)
            && DangleZst::<A>::spec_fat_alloc(new_layout) is Refuse),
        DangleZst::<A>::spec_fat_realloc(old_layout, new_layout) matches FatReallocStep::Refuse(e)
            ==> DangleZst::<A>::spec_fat_alloc(new_layout) == FatAllocStep::Refuse(e),
        DangleZst::<A>::spec_fat_realloc(old_layout, new_layout) matches FatReallocStep::Move {
            alloc,
            free_old,
            ..
        } ==> alloc !is Refuse && free_old == (old_layout.spec_size() > 0),
        new_layout.spec_size() == 0 && new_layout.spec_align() > DangleZst::<A>::spec_dangle()
            ==> DangleZst::<A>::spec_fat_realloc(old_layout, new_layout) is Refuse,
{
}

/// The dangling address answered for a zero-sized request is aligned as the request asks: the
/// largest supported alignment is a multiple of every alignment the adapter accepts.
pub proof fn lemma_dangle_is_aligned<A: Meta>(layout: Layout)
    requires
        is_pow2(A::spec_max_align().spec_bytes() as int),
        is_pow2(layout.spec_align() as int),
        layout.spec_size() == 0,
    ensures
        DangleZst::<A>::spec_fat_alloc(layout) matches FatAllocStep::Dangle(addr) ==> addr
            % layout.spec_align() == 0 && addr != 0,
{
    broadcast use vstd::arithmetic::power2::is_pow2_equiv;
    if layout.spec_align() <= DangleZst::<A>::spec_dangle() {
        crate::align::alignment::lemma_pow2_divides_larger(
            layout.spec_align() as int,
            DangleZst::<A>::spec_dangle() as int,
        );
        reveal(is_pow2);
    }
}

impl<A> core::ops::Deref for DangleZst<A> {
    type Target = A;

    fn deref(&self) -> (r: &A)
        ensures
            *r == self.0,
    {
        &self.0
    }
}

impl<A: Meta> Meta for DangleZst<A> {
    open spec fn spec_max_align() -> Alignment {
        A::spec_max_align()
    }

    open spec fn spec_max_size() -> usize {
        A::spec_max_size()
    }

    open spec fn spec_zst_supported() -> bool {
        true
    }

    open spec fn spec_min_align() -> Alignment {
        A::spec_min_align()
    }

    fn max_align() -> (r: Alignment) {
        A::max_align()
    }

    fn max_size() -> (r: usize) {
        A::max_size()
    }

    fn zst_supported() -> (r: bool) {
        true
    }

    fn min_align() -> (r: Alignment) {
        A::min_align()
    }
}

} // verus!
