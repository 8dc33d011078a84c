use vstd::prelude::*;

verus! {

use crate::align::alignment::Alignment;
use crate::layout::Layout;
use crate::meta::Meta;
use crate::util::bytes::{decimal, push_decimal};

/// Bytes to skip from address `start` to reach a multiple of `align`.
pub open spec fn skip_to_align(start: int, align: int) -> int {
    if start % align == 0 {
        0
    } else {
        align - start % align
    }
}

/// The outcome of bump-allocating `size` bytes aligned to `align` (both nonzero) from the
/// `len` free bytes starting at address `start`: the address of the allocation, and the start
/// and length of the region left free; `None` when the region is too small.
pub open spec fn bump_alloc(start: int, len: int, size: int, align: int) -> Option<(int, int, int)> {
    let skip = skip_to_align(start, align);
    if skip + size <= len {
        Some((start + skip, start + skip + size, len - skip - size))
    } else {
        None
    }
}

/// A bump allocation is aligned, lies inside the free region, and leaves exactly the bytes
/// after it free: the region's end does not move.
pub proof fn lemma_bump_alloc_placement(start: int, len: int, size: int, align: int)
    requires
        start >= 0,
        len >= 0,
        size > 0,
        align > 0,
        bump_alloc(start, len, size, align) is Some,
    ensures
        ({
            let (addr, new_start, new_len) = bump_alloc(start, len, size, align)->0;
            &&& addr % align == 0
            &&& start <= addr
            &&& addr + size == new_start
            &&& new_start + new_len == start + len
            &&& new_len >= 0
        }),
{
    let m = start % align;
    let q = start / align;
    assert(start == q * align + m) by (nonlinear_arith)
        requires align > 0, m == start % align, q == start / align;
    if m != 0 {
        assert(start + (align - m) == (q + 1) * align) by (nonlinear_arith)
            requires start == q * align + m;
        assert(((q + 1) * align) % align == 0) by (nonlinear_arith)
            requires align > 0;
    }
}

/// Two successive bump allocations from the same region never overlap: the second starts at
/// or after the end of the first, and both end inside the original region.
pub proof fn lemma_bump_allocations_disjoint(
    start: int,
    len: int,
    size1: int,
    align1: int,
    size2: int,
    align2: int,
)
    requires
        start >= 0,
        len >= 0,
        size1 > 0,
        align1 > 0,
        size2 > 0,
        align2 > 0,
        bump_alloc(start, len, size1, align1) is Some,
        bump_alloc(
            (bump_alloc(start, len, size1, align1)->0).1,
            (bump_alloc(start, len, size1, align1)->0).2,
            size2,
            align2,
        ) is Some,
    ensures
        ({
            let (addr1, start1, len1) = bump_alloc(start, len, size1, align1)->0;
            let (addr2, start2, len2) = bump_alloc(start1, len1, size2, align2)->0;
            &&& start <= addr1
            &&& addr1 + size1 <= addr2
            &&& addr2 + size2 <= start + len
        }),
{
    lemma_bump_alloc_placement(start, len, size1, align1);
    let (addr1, start1, len1) = bump_alloc(start, len, size1, align1)->0;
    lemma_bump_alloc_placement(start1, len1, size2, align2);
}

/// Bump allocation takes the first fit and fails only when nothing fits: an allocation of `size`
/// bytes succeeds exactly at the first address from `start` on that is a multiple of `align`
/// (it lies below `start + align`) whenever the bytes from there fit in the region, leaving the
/// bytes after it free; and every success is at such an address.
pub proof fn lemma_bump_alloc_first_fit(start: int, len: int, size: int, align: int, addr: int)
    requires
        start >= 0,
        len >= 0,
        size > 0,
        align > 0,
    ensures
        addr % align == 0 && start <= addr < start + align && addr + size <= start + len
            ==> bump_alloc(start, len, size, align) == Some((addr, addr + size, start + len - addr - size)),
        bump_alloc(start, len, size, align) matches Some((a, s, l)) ==> {
            &&& a % align == 0
            &&& start <= a < start + align
            &&& a + size <= start + len
            &&& s == a + size
            &&& l == start + len - a - size
        },
{
    let m = start % align;
    let q = start / align;
    assert(start == q * align + m && 0 <= m < align) by (nonlinear_arith)
        requires align > 0, m == start % align, q == start / align;
    if bump_alloc(start, len, size, align) is Some {
        lemma_bump_alloc_placement(start, len, size, align);
    }
    if addr % align == 0 && start <= addr < start + align && addr + size <= start + len {
        let k = addr / align;
        assert(addr == k * align) by (nonlinear_arith)
            requires align > 0, addr % align == 0, k == addr / align;
        if m == 0 {
            assert(k == q) by (nonlinear_arith)
                requires addr == k * align, start == q * align, start <= addr < start + align, align > 0;
            assert(addr == start) by (nonlinear_arith)
                requires addr == k * align, k == q, start == q * align;
        } else {
            assert(k == q + 1) by (nonlinear_arith)
                requires addr == k * align, start == q * align + m, 0 < m < align,
                    start <= addr < start + align, align > 0;
            assert(addr == start + (align - m)) by (nonlinear_arith)
                requires addr == k * align, k == q + 1, start == q * align + m;
        }
        assert(addr == start + skip_to_align(start, align));
    }
}

/// The count of outstanding allocations after one more success: one more, saturating at
/// `usize::MAX`.
pub open spec fn counted(outstanding: usize) -> usize {
    if outstanding < usize::MAX {
        (outstanding + 1) as usize
    } else {
        outstanding
    }
}

/// Bump-allocate from a region of memory: the unallocated tail of the region starts at
/// `start` and holds `len` bytes; each allocation is carved from its front and is never reused.
pub struct Bump {
    start: usize,
    len: usize,
    outstanding_allocs: usize,
}

impl Bump {
    #[verifier::type_invariant]
    spec fn inv(self) -> bool {
        self.start + self.len <= usize::MAX
    }

    /// Address of the first free byte.
    pub closed spec fn spec_start(self) -> usize {
        self.start
    }

    /// Number of free bytes.
    pub closed spec fn spec_available(self) -> usize {
        self.len
    }

    /// Number of allocations not yet freed.
    pub closed spec fn spec_outstanding(self) -> usize {
        self.outstanding_allocs
    }

    /// Bump-allocate from the `len` bytes starting at address `start`.
    pub fn new(start: usize, len: usize) -> (r: Bump)
        requires
            start + len <= usize::MAX,
        ensures
            r.spec_start() == start,
            r.spec_available() == len,
            r.spec_outstanding() == 0,
    {
        Bump { start, len, outstanding_allocs: 0 }
    }

    /// Number of allocations not yet freed.
    pub fn outstanding_allocs(&self) -> (r: usize)
        ensures
            r == self.spec_outstanding(),
    {
        self.outstanding_allocs
    }

    /// The debug text of the allocator:
    /// `Bump { buffer: [...N bytes], outstanding_allocs: M }`.
    pub fn to_debug_string(&self) -> (r: String)
        ensures
            r@ == "Bump { buffer: [..."@ + decimal(self.spec_available() as nat) + " bytes], outstanding_allocs: "@
                + decimal(self.spec_outstanding() as nat) + " }"@,
    {
        let mut out = String::from_str("Bump { buffer: [...");
        push_decimal(&mut out, self.len);
        out.append(" bytes], outstanding_allocs: ");
        push_decimal(&mut out, self.outstanding_allocs);
        out.append(" }");
        out
    }

    /// Number of bytes still free.
    pub fn available(&self) -> (r: usize)
        ensures
            r == self.spec_available(),
    {
        self.len
    }

    /// Allocates `layout.size()` bytes aligned to `layout.align()` and returns their address.
    /// Zero-sized requests are answered with the alignment itself as address and take nothing.
    /// Each success is counted as an outstanding allocation; the count is bookkeeping only and
    /// never decides the outcome.
    pub fn alloc_uninit(&mut self, layout: Layout) -> (r: Result<usize, ()>)
        ensures
            layout.spec_size() == 0 ==> {
                &&& r == Ok::<usize, ()>(layout.spec_align())
                &&& final(self).spec_start() == old(self).spec_start()
                &&& final(self).spec_available() == old(self).spec_available()
                &&& final(self).spec_outstanding() == counted(old(self).spec_outstanding())
            },
            layout.spec_size() > 0 ==> match bump_alloc(
                old(self).spec_start() as int,
                old(self).spec_available() as int,
                layout.spec_size() as int,
                layout.spec_align() as int,
            ) {
                Some((addr, start, len)) => {
                    &&& r matches Ok(a) && a == addr
                    &&& final(self).spec_start() == start
                    &&& final(self).spec_available() == len
                    &&& final(self).spec_outstanding() == counted(old(self).spec_outstanding())
                },
                None => {
                    &&& r == Err::<usize, ()>(())
                    &&& final(self).spec_start() == old(self).spec_start()
                    &&& final(self).spec_available() == old(self).spec_available()
                    &&& final(self).spec_outstanding() == old(self).spec_outstanding()
                },
            },
    {
        proof {
            use_type_invariant(&*self);
        }
        let align = layout.align();
        let size = layout.size();
        if size == 0 {
            self.outstanding_allocs = self.outstanding_allocs.saturating_add(1);
            return Ok(crate::util::nn::dangling(layout));
        }
        let misalign = self.start % align;
        if misalign == 0 {
            if self.len < size {
                Err(())
            } else {
                let alloc = self.start;
                *self = Bump {
                    start: alloc + size,
                    len: self.len - size,
                    outstanding_allocs: self.outstanding_allocs.saturating_add(1),
                };
                Ok(alloc)
            }
        } else {
            let skip = align - misalign;
            if skip.saturating_add(size) > self.len {
                Err(())
            } else {
                let alloc = self.start + skip;
                *self = Bump {
                    start: alloc + size,
                    len: self.len - skip - size,
                    outstanding_allocs: self.outstanding_allocs.saturating_add(1),
                };
                Ok(alloc)
            }
        }
    }

    /// Releases an allocation; the memory is not reused, only the count of live allocations drops.
    pub fn free(&mut self, ptr: usize, layout: Layout)
        requires
            old(self).spec_outstanding() > 0,
        ensures
            final(self).spec_start() == old(self).spec_start(),
            final(self).spec_available() == old(self).spec_available(),
            final(self).spec_outstanding() == old(self).spec_outstanding() - 1,
    {
        let _ = (ptr, layout);
        proof {
            use_type_invariant(&*self);
        }
        self.outstanding_allocs = self.outstanding_allocs - 1;
    }
}

/// Two successive allocations from a [`Bump`] never overlap: when an allocation of `l1` from
/// `b0` succeeds at `a1` and leaves `b1`, and an allocation of `l2` from `b1` then succeeds at
/// `a2` and leaves `b2` (as [`Bump::alloc_uninit`] reports them), the two blocks are aligned,
/// the second starts at or after the end of the first, both lie inside the free region of
/// `b0`, and the free region of `b2` still ends where that of `b0` ended.
pub proof fn lemma_successive_allocations_disjoint(
    b0: Bump,
    l1: Layout,
    a1: usize,
    b1: Bump,
    l2: Layout,
    a2: usize,
    b2: Bump,
)
    requires
        l1.spec_size() > 0,
        l2.spec_size() > 0,
        l1.spec_align() > 0,
        l2.spec_align() > 0,
        bump_alloc(
            b0.spec_start() as int,
            b0.spec_available() as int,
            l1.spec_size() as int,
            l1.spec_align() as int,
        ) == Some((a1 as int, b1.spec_start() as int, b1.spec_available() as int)),
        bump_alloc(
            b1.spec_start() as int,
            b1.spec_available() as int,
            l2.spec_size() as int,
            l2.spec_align() as int,
        ) == Some((a2 as int, b2.spec_start() as int, b2.spec_available() as int)),
    ensures
        b0.spec_start() <= a1,
        a1 + l1.spec_size() <= a2,
        a2 + l2.spec_size() <= b0.spec_start() + b0.spec_available(),
        a1 % l1.spec_align() == 0,
        a2 % l2.spec_align() == 0,
        b2.spec_start() + b2.spec_available() == b0.spec_start() + b0.spec_available(),
{
    lemma_bump_alloc_placement(
        b0.spec_start() as int,
        b0.spec_available() as int,
        l1.spec_size() as int,
        l1.spec_align() as int,
    );
    lemma_bump_alloc_placement(
        b1.spec_start() as int,
        b1.spec_available() as int,
        l2.spec_size() as int,
        l2.spec_align() as int,
    );
}

impl Meta for Bump {
    open spec fn spec_max_align() -> Alignment {
        Alignment::spec_maximum()
    }

    open spec fn spec_max_size() -> usize {
        usize::MAX
    }

    open spec fn spec_zst_supported() -> bool {
        true
    }

    open spec fn spec_min_align() -> Alignment {
        Alignment::spec_constant(1)
    }

    fn max_align() -> (r: Alignment) {
        Alignment::maximum()
    }

    fn max_size() -> (r: usize) {
        usize::MAX
    }

    fn zst_supported() -> (r: bool) {
        true
    }

    fn min_align() -> (r: Alignment) {
        Alignment::minimum()
    }
}

} // verus!
